//! Orchestration for the trigger that adds a user to a review, addressed
//! to that user.

use vstd::prelude::*;
use crate::controller::error::ControllerError;
use crate::controller::notification_rules::reviewer_added::{
    notification_wanted, spec_notification_wanted,
};
use crate::controller::util::extract_user_data;
use crate::service::NotificationMessageComposer;
use crate::types::{GerritTrigger, ProfileId, ReviewerAddedData, ReviewerSettings, Settings};

verus! {

/// Handles an added-to-review trigger once the collaborators have answered:
/// `profile_id` and `settings` are what the identity resolver and the
/// settings store returned for the reviewing user.  On success, yields the
/// recipient and the message text for the caller to dispatch.
pub fn reviewer_added(
    trigger: &GerritTrigger,
    data: &ReviewerAddedData,
    composer: &NotificationMessageComposer,
    profile_id: Option<ProfileId>,
    settings: Option<Settings>,
) -> (r: Result<(ProfileId, String), ControllerError>)
    ensures
        profile_id is None || settings is None ==> (r matches Err(e) && e
            matches ControllerError::UserMappingError(m)),
        profile_id is Some && settings is Some ==> match spec_notification_wanted(
            data.change_owner_username,
            data.reviewer_username,
            settings->0.spec_reviewer(),
        ) {
            Err(v) => r == Err::<(ProfileId, String), ControllerError>(
                ControllerError::RuleViolation(v),
            ),
            Ok(_) => match composer.spec_compose(*trigger) {
                Some(text) => (r matches Ok((p, msg)) && p == profile_id->0 && msg@ == text),
                None => (r matches Err(e) && e matches ControllerError::Unspecified(m) && m@
                    == "Unknown error occurred."@),
            },
        },
{
    let (reviewer_id, settings) = match extract_user_data(profile_id, settings) {
        Ok(user_data) => user_data,
        Err(e) => {
            return Err(e);
        },
    };
    let settings: ReviewerSettings = ReviewerSettings::from(settings);

    if let Err(violation) = notification_wanted(
        &data.change_owner_username,
        &data.reviewer_username,
        &settings,
    ) {
        return Err(ControllerError::RuleViolation(violation));
    }

    match composer.compose(trigger) {
        Ok(message) => Ok((reviewer_id, message)),
        Err(_) => Err(ControllerError::Unspecified(String::from_str("Unknown error occurred."))),
    }
}

} // verus!
