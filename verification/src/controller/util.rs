//! Shared controller steps.

use vstd::prelude::*;
use crate::controller::error::ControllerError;
use crate::types::{ProfileId, Settings};

verus! {

/// Requires both the resolved identity and the settings to be present, and
/// otherwise aborts the trigger with a `UserMappingError`, the identity
/// taking precedence.
pub fn extract_user_data(profile_id: Option<ProfileId>, settings: Option<Settings>) -> (r: Result<
    (ProfileId, Settings),
    ControllerError,
>)
    ensures
        profile_id is None ==> (r matches Err(e) && e matches ControllerError::UserMappingError(m)
            && m@ == "No profile id found. More information in log."@),
        profile_id is Some && settings is None ==> (r matches Err(e) && e
            matches ControllerError::UserMappingError(m) && m@
            == "No user settings found. More information in log."@),
        profile_id is Some && settings is Some ==> r == Ok::<(ProfileId, Settings),
            ControllerError,
        >((profile_id->0, settings->0)),
{
    match (profile_id, settings) {
        (None, _) => Err(
            ControllerError::UserMappingError(
                String::from_str("No profile id found. More information in log."),
            ),
        ),
        (Some(_), None) => Err(
            ControllerError::UserMappingError(
                String::from_str("No user settings found. More information in log."),
            ),
        ),
        (Some(p), Some(s)) => Ok((p, s)),
    }
}

} // verus!
