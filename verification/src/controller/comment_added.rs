//! Orchestration for a comment-added trigger: given the collaborator
//! results, decide whether a notification goes out and what it says.

use vstd::prelude::*;
use crate::controller::error::ControllerError;
use crate::controller::notification_rules::comment_added::{
    notification_wanted, spec_notification_wanted,
};
use crate::controller::util::extract_user_data;
use crate::service::NotificationMessageComposer;
use crate::types::{CommentAddedData, GerritTrigger, OwnerSettings, ProfileId, Settings};

verus! {

/// Handles a comment-added trigger once the collaborators have answered:
/// `profile_id` and `settings` are what the identity resolver and the
/// settings store returned for the change owner.  On success, yields the
/// recipient and the message text for the caller to dispatch; every
/// rejection or missing prerequisite is a typed error and nothing is
/// dispatched.
pub fn comment_added_rewrite(
    trigger: &GerritTrigger,
    comment: &CommentAddedData,
    composer: &NotificationMessageComposer,
    profile_id: Option<ProfileId>,
    settings: Option<Settings>,
) -> (r: Result<(ProfileId, String), ControllerError>)
    ensures
        profile_id is None || settings is None ==> (r matches Err(e) && e
            matches ControllerError::UserMappingError(m)),
        profile_id is Some && settings is Some ==> match spec_notification_wanted(
            *comment,
            settings->0.spec_owner(),
        ) {
            Err(v) => r == Err::<(ProfileId, String), ControllerError>(
                ControllerError::RuleViolation(v),
            ),
            Ok(_) => match composer.spec_compose(*trigger) {
                Some(text) => (r matches Ok((p, msg)) && p == profile_id->0 && msg@ == text),
                None => (r matches Err(e) && e matches ControllerError::Unspecified(m) && m@
                    == "Unknown error occurred."@),
            },
        },
        profile_id is Some && settings is Some && comment.author_username@
            == comment.base.change_owner_username@ ==> r == Err::<
            (ProfileId, String),
            ControllerError,
        >(
            ControllerError::RuleViolation(
                crate::controller::error::NotificationRuleViolation::AuthorAndOwnerAreTheSame,
            ),
        ),
{
    let (profile_id, settings) = match extract_user_data(profile_id, settings) {
        Ok(data) => data,
        Err(e) => {
            return Err(e);
        },
    };
    let settings: OwnerSettings = OwnerSettings::from(settings);

    if let Err(violation) = notification_wanted(comment, &settings) {
        return Err(ControllerError::RuleViolation(violation));
    }

    match composer.compose(trigger) {
        Ok(message) => Ok((profile_id, message)),
        Err(_) => Err(ControllerError::Unspecified(String::from_str("Unknown error occurred."))),
    }
}

} // verus!
