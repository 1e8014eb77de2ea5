//! Orchestration for a patch-status-changed trigger.

use vstd::prelude::*;
use crate::controller::error::ControllerError;
use crate::controller::notification_rules::patch_status::{
    check_notification_settings, spec_check_notification_settings,
};
use crate::controller::util::extract_user_data;
use crate::service::NotificationMessageComposer;
use crate::types::{GerritTrigger, OwnerSettings, PatchStatusChangedData, ProfileId, Settings};

verus! {

/// Handles a patch-status-changed trigger once the collaborators have
/// answered.  On success, yields the recipient and the message text for the
/// caller to dispatch; every rejection or missing prerequisite is a typed
/// error and nothing is dispatched.
pub fn patch_status_changed(
    trigger: &GerritTrigger,
    data: &PatchStatusChangedData,
    composer: &NotificationMessageComposer,
    profile_id: Option<ProfileId>,
    settings: Option<Settings>,
) -> (r: Result<(ProfileId, String), ControllerError>)
    ensures
        profile_id is None || settings is None ==> (r matches Err(e) && e
            matches ControllerError::UserMappingError(m)),
        profile_id is Some && settings is Some ==> match spec_check_notification_settings(
            settings->0.spec_owner(),
            *data,
        ) {
            Err(v) => r == Err::<(ProfileId, String), ControllerError>(
                ControllerError::RuleViolation(v),
            ),
            Ok(_) => match composer.spec_compose(*trigger) {
                Some(text) => (r matches Ok((p, msg)) && p == profile_id->0 && msg@ == text),
                None => (r matches Err(e) && e matches ControllerError::Unspecified(m) && m@
                    == "Unknown error occurred."@),
            },
        },
{
    let (profile_id, settings) = match extract_user_data(profile_id, settings) {
        Ok(user_data) => user_data,
        Err(e) => {
            return Err(e);
        },
    };
    let settings: OwnerSettings = OwnerSettings::from(settings);

    if let Err(violation) = check_notification_settings(&settings, data) {
        return Err(ControllerError::RuleViolation(violation));
    }

    match composer.compose(trigger) {
        Ok(message) => Ok((profile_id, message)),
        Err(_) => Err(ControllerError::Unspecified(String::from_str("Unknown error occurred."))),
    }
}

} // verus!
