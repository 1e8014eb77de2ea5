//! Rule checks for the trigger that adds a user to a review, addressed to
//! that user.

use vstd::prelude::*;
use crate::controller::error::NotificationRuleViolation;
use crate::types::{contains_username, spec_contains_username, GerritUsername, ReviewerSettings};

verus! {

/// The decision for the added-to-review trigger, in rule order: the added
/// user must be subscribed, and must not ignore reviews coming from the
/// change owner.
pub open spec fn spec_notification_wanted(
    change_owner: GerritUsername,
    reviewer: GerritUsername,
    settings: ReviewerSettings,
) -> Result<(), NotificationRuleViolation> {
    if !settings.subscribe {
        Err(NotificationRuleViolation::ReviewerNotSubscribedToNotification(reviewer))
    } else if spec_contains_username(settings.ignore_by_username@, change_owner@) {
        Err(NotificationRuleViolation::ReviewerIgnoresReviewsByChangeOwner(reviewer, change_owner))
    } else {
        Ok(())
    }
}

pub fn notification_wanted(
    change_owner: &GerritUsername,
    reviewer: &GerritUsername,
    settings: &ReviewerSettings,
) -> (r: Result<(), NotificationRuleViolation>)
    ensures
        r == spec_notification_wanted(*change_owner, *reviewer, *settings),
{
    if settings.subscribe == false {
        return Err(NotificationRuleViolation::ReviewerNotSubscribedToNotification(
            reviewer.clone(),
        ));
    }

    let ignore_reviews_by_owner = contains_username(&settings.ignore_by_username, change_owner);
    if ignore_reviews_by_owner {
        return Err(NotificationRuleViolation::ReviewerIgnoresReviewsByChangeOwner(
            reviewer.clone(),
            change_owner.clone(),
        ));
    }

    Ok(())
}

} // verus!
