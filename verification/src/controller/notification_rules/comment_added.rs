//! Rule checks for a comment-added trigger, addressed to the change owner.

use vstd::prelude::*;
use crate::controller::error::NotificationRuleViolation;
use crate::types::{
    contains_project, contains_username, spec_contains_project, spec_contains_username,
    CommentAddedData, OwnerSettings,
};

verus! {

/// The decision for a comment-added trigger, in rule order: the owner never
/// hears about their own comments; then the subscription flag, the ignored
/// authors and the ignored projects are consulted; otherwise the notification
/// is wanted.
pub open spec fn spec_notification_wanted(
    comment: CommentAddedData,
    settings: OwnerSettings,
) -> Result<(), NotificationRuleViolation> {
    let author = comment.author_username;
    let owner = comment.base.change_owner_username;
    if owner@ == author@ {
        Err(NotificationRuleViolation::AuthorAndOwnerAreTheSame)
    } else if !settings.subscribe_comment {
        Err(NotificationRuleViolation::OwnerNotSubscribedToComments(owner))
    } else if spec_contains_username(settings.ignore_by_username@, author@) {
        Err(NotificationRuleViolation::OwnerIgnoresCommentsByUser(owner, author))
    } else if spec_contains_project(settings.ignore_projects@, comment.base.project@) {
        Err(NotificationRuleViolation::OwnerIgnoresCommentsForProject(
            owner,
            comment.base.project,
        ))
    } else {
        Ok(())
    }
}

/// Decides whether a comment notification should be created.
pub fn notification_wanted(comment: &CommentAddedData, settings: &OwnerSettings) -> (r: Result<
    (),
    NotificationRuleViolation,
>)
    ensures
        r == spec_notification_wanted(*comment, *settings),
{
    let author = &comment.author_username;
    let owner = &comment.base.change_owner_username;

    if *owner == *author {
        return Err(NotificationRuleViolation::AuthorAndOwnerAreTheSame);
    }

    if settings.subscribe_comment == false {
        return Err(NotificationRuleViolation::OwnerNotSubscribedToComments(owner.clone()));
    }

    if contains_username(&settings.ignore_by_username, author) {
        return Err(NotificationRuleViolation::OwnerIgnoresCommentsByUser(
            owner.clone(),
            author.clone(),
        ));
    }

    if contains_project(&settings.ignore_projects, &comment.base.project) {
        return Err(NotificationRuleViolation::OwnerIgnoresCommentsForProject(
            owner.clone(),
            comment.base.project.clone(),
        ));
    }

    Ok(())
}

/// The rule engine is deterministic: the decision is a function of the
/// trigger and the settings alone, so two calls on identical inputs agree.
pub proof fn lemma_notification_wanted_deterministic(
    comment: CommentAddedData,
    settings: OwnerSettings,
    r1: Result<(), NotificationRuleViolation>,
    r2: Result<(), NotificationRuleViolation>,
)
    requires
        r1 == spec_notification_wanted(comment, settings),
        r2 == spec_notification_wanted(comment, settings),
    ensures
        r1 == r2,
{
}

/// Rule precedence: when the comment author owns the change, the rejection is
/// `AuthorAndOwnerAreTheSame`, whatever the owner's settings say.
pub proof fn lemma_author_owner_precedence(comment: CommentAddedData, settings: OwnerSettings)
    requires
        comment.author_username@ == comment.base.change_owner_username@,
    ensures
        spec_notification_wanted(comment, settings) == Err::<(), NotificationRuleViolation>(
            NotificationRuleViolation::AuthorAndOwnerAreTheSame,
        ),
{
}

} // verus!
