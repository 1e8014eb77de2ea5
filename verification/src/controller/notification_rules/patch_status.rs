//! Rule checks for a patch-status-changed trigger, addressed to the change
//! owner.

use vstd::prelude::*;
use crate::controller::error::NotificationRuleViolation;
use crate::types::{OwnerSettings, PatchStatus, PatchStatusChangedData, VerifiedStatus};

verus! {

/// The decision for a score transition, in rule order: the owner never hears
/// about their own actions; a verify change needs the verified subscription
/// and a non-neutral score; a ready-to-submit patch needs the submit
/// subscription; a pure code-review change is always accepted (no
/// notification text exists for it yet); no change at all is rejected.
pub open spec fn spec_check_notification_settings(
    settings: OwnerSettings,
    data: PatchStatusChangedData,
) -> Result<(), NotificationRuleViolation> {
    if data.author_username@ == data.base.change_owner_username@ {
        Err(NotificationRuleViolation::AuthorAndOwnerAreTheSame)
    } else {
        let change_owner = data.base.change_owner_username;
        match data.patch_status {
            PatchStatus::Both(_, verified_status) => {
                if !settings.subscribe_verified {
                    Err(NotificationRuleViolation::OwnerNotSubscribedToVerfiedNotification(
                        change_owner,
                    ))
                } else if verified_status == VerifiedStatus::Neutral {
                    Err(NotificationRuleViolation::NoPatchStatusSet)
                } else {
                    Ok(())
                }
            },
            PatchStatus::Verified(verified_status) => {
                if !settings.subscribe_verified {
                    Err(NotificationRuleViolation::OwnerNotSubscribedToVerfiedNotification(
                        change_owner,
                    ))
                } else if verified_status == VerifiedStatus::Neutral {
                    Err(NotificationRuleViolation::NoPatchStatusSet)
                } else {
                    Ok(())
                }
            },
            PatchStatus::ReadyForSubmit => {
                if !settings.subscribe_ready_for_submit {
                    Err(NotificationRuleViolation::OwnerNotSubscribedToSubmitNotification(
                        change_owner,
                    ))
                } else {
                    Ok(())
                }
            },
            PatchStatus::CodeReview(_) => Ok(()),
            PatchStatus::NoChange => Err(NotificationRuleViolation::NoPatchStatusSet),
        }
    }
}

pub fn check_notification_settings(
    settings: &OwnerSettings,
    data: &PatchStatusChangedData,
) -> (r: Result<(), NotificationRuleViolation>)
    ensures
        r == spec_check_notification_settings(*settings, *data),
{
    if data.author_username == data.base.change_owner_username {
        return Err(NotificationRuleViolation::AuthorAndOwnerAreTheSame);
    }

    let change_owner = data.base.change_owner_username.clone();

    match data.patch_status {
        PatchStatus::Both(_, verified_status) => {
            if settings.subscribe_verified == false {
                return Err(NotificationRuleViolation::OwnerNotSubscribedToVerfiedNotification(
                    change_owner,
                ));
            }
            if verified_status == VerifiedStatus::Neutral {
                return Err(NotificationRuleViolation::NoPatchStatusSet);
            }
        },
        PatchStatus::Verified(verified_status) => {
            if settings.subscribe_verified == false {
                return Err(NotificationRuleViolation::OwnerNotSubscribedToVerfiedNotification(
                    change_owner,
                ));
            }
            if verified_status == VerifiedStatus::Neutral {
                return Err(NotificationRuleViolation::NoPatchStatusSet);
            }
        },
        PatchStatus::ReadyForSubmit => {
            if settings.subscribe_ready_for_submit == false {
                return Err(NotificationRuleViolation::OwnerNotSubscribedToSubmitNotification(
                    change_owner,
                ));
            }
        },
        PatchStatus::CodeReview(_) => {},
        PatchStatus::NoChange => {
            return Err(NotificationRuleViolation::NoPatchStatusSet);
        },
    }

    Ok(())
}

/// Rule precedence: when the acting user owns the change, the rejection is
/// `AuthorAndOwnerAreTheSame`, whatever the settings or the status say.
pub proof fn lemma_author_owner_precedence(settings: OwnerSettings, data: PatchStatusChangedData)
    requires
        data.author_username@ == data.base.change_owner_username@,
    ensures
        spec_check_notification_settings(settings, data) == Err::<(), NotificationRuleViolation>(
            NotificationRuleViolation::AuthorAndOwnerAreTheSame,
        ),
{
}

} // verus!
