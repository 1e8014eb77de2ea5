//! Typed rejection reasons and controller errors.

use vstd::prelude::*;
use crate::types::{GerritUsername, ProjectName};

verus! {

/// Why the rule engine rejected a notification.  A rejection is a normal
/// negative outcome, not a failure.
#[derive(Debug, PartialEq)]
pub enum NotificationRuleViolation {
    AuthorAndOwnerAreTheSame,
    NoPatchStatusSet,
    /// Which owner is not subscribed to comments.
    OwnerNotSubscribedToComments(GerritUsername),
    /// Which owner ignores which user's comments.
    OwnerIgnoresCommentsByUser(GerritUsername, GerritUsername),
    /// Which owner ignores what project.
    OwnerIgnoresCommentsForProject(GerritUsername, ProjectName),
    /// Which owner is not subscribed to submit notifications.
    OwnerNotSubscribedToSubmitNotification(GerritUsername),
    /// Which owner is not subscribed to verified notifications.
    OwnerNotSubscribedToVerfiedNotification(GerritUsername),
    /// Which reviewing user is not subscribed to notifications.
    ReviewerNotSubscribedToNotification(GerritUsername),
    /// Which reviewing user ignores what change owner.
    ReviewerIgnoresReviewsByChangeOwner(GerritUsername, GerritUsername),
}

impl NotificationRuleViolation {
    /// The human-readable description of the rejection.
    pub open spec fn spec_describe(self) -> Seq<char> {
        match self {
            NotificationRuleViolation::AuthorAndOwnerAreTheSame => {
                "Author and owner are the same."@
            },
            NotificationRuleViolation::NoPatchStatusSet => "No patch status set."@,
            NotificationRuleViolation::OwnerNotSubscribedToComments(owner) => {
                owner@ + " is not subscribed to comments."@
            },
            NotificationRuleViolation::OwnerIgnoresCommentsByUser(owner, user) => {
                owner@ + " ignores comments by "@ + user@ + "."@
            },
            NotificationRuleViolation::OwnerIgnoresCommentsForProject(owner, project) => {
                owner@ + " ignores comments for project "@ + project@ + "."@
            },
            NotificationRuleViolation::OwnerNotSubscribedToSubmitNotification(owner) => {
                owner@ + " ignores submit notifications."@
            },
            NotificationRuleViolation::OwnerNotSubscribedToVerfiedNotification(owner) => {
                owner@ + " ignores verified notifications."@
            },
            NotificationRuleViolation::ReviewerNotSubscribedToNotification(reviewer) => {
                reviewer@ + " ignores notifications to reviews."@
            },
            NotificationRuleViolation::ReviewerIgnoresReviewsByChangeOwner(reviewer, owner) => {
                reviewer@ + " ignores reviews from "@ + owner@ + "."@
            },
        }
    }

    pub fn describe(&self) -> (r: String)
        ensures
            r@ == self.spec_describe(),
    {
        match self {
            NotificationRuleViolation::AuthorAndOwnerAreTheSame => {
                String::from_str("Author and owner are the same.")
            },
            NotificationRuleViolation::NoPatchStatusSet => String::from_str(
                "No patch status set.",
            ),
            NotificationRuleViolation::OwnerNotSubscribedToComments(owner) => {
                let mut r = owner.0.clone();
                r.append(" is not subscribed to comments.");
                r
            },
            NotificationRuleViolation::OwnerIgnoresCommentsByUser(owner, user) => {
                let mut r = owner.0.clone();
                r.append(" ignores comments by ");
                r.append(user.0.as_str());
                r.append(".");
                r
            },
            NotificationRuleViolation::OwnerIgnoresCommentsForProject(owner, project) => {
                let mut r = owner.0.clone();
                r.append(" ignores comments for project ");
                r.append(project.0.as_str());
                r.append(".");
                r
            },
            NotificationRuleViolation::OwnerNotSubscribedToSubmitNotification(owner) => {
                let mut r = owner.0.clone();
                r.append(" ignores submit notifications.");
                r
            },
            NotificationRuleViolation::OwnerNotSubscribedToVerfiedNotification(owner) => {
                let mut r = owner.0.clone();
                r.append(" ignores verified notifications.");
                r
            },
            NotificationRuleViolation::ReviewerNotSubscribedToNotification(reviewer) => {
                let mut r = reviewer.0.clone();
                r.append(" ignores notifications to reviews.");
                r
            },
            NotificationRuleViolation::ReviewerIgnoresReviewsByChangeOwner(reviewer, owner) => {
                let mut r = reviewer.0.clone();
                r.append(" ignores reviews from ");
                r.append(owner.0.as_str());
                r.append(".");
                r
            },
        }
    }
}

/// What a trigger endpoint can report back.
#[derive(Debug)]
pub enum ControllerError {
    RuleViolation(NotificationRuleViolation),
    Unrecoverable(String),
    Unspecified(String),
    UserMappingError(String),
}

impl ControllerError {
    /// The human-readable description of the error.
    pub open spec fn spec_describe(self) -> Seq<char> {
        match self {
            ControllerError::Unspecified(message) => "Error in controller: "@ + message@,
            ControllerError::Unrecoverable(message) => "Error in controller: "@ + message@,
            ControllerError::RuleViolation(reason) => {
                "Notification wasn't send due to settings: "@ + reason.spec_describe()
            },
            ControllerError::UserMappingError(reason) => {
                "Couldn't retrieve user information: "@ + reason@
            },
        }
    }

    pub fn describe(&self) -> (r: String)
        ensures
            r@ == self.spec_describe(),
    {
        match self {
            ControllerError::Unspecified(message) => {
                let mut r = String::from_str("Error in controller: ");
                r.append(message.as_str());
                r
            },
            ControllerError::Unrecoverable(message) => {
                let mut r = String::from_str("Error in controller: ");
                r.append(message.as_str());
                r
            },
            ControllerError::RuleViolation(reason) => {
                let mut r = String::from_str("Notification wasn't send due to settings: ");
                let text = reason.describe();
                r.append(text.as_str());
                r
            },
            ControllerError::UserMappingError(reason) => {
                let mut r = String::from_str("Couldn't retrieve user information: ");
                r.append(reason.as_str());
                r
            },
        }
    }
}

impl Clone for NotificationRuleViolation {
    fn clone(&self) -> (r: Self)
        ensures
            r == *self,
    {
        match self {
            NotificationRuleViolation::AuthorAndOwnerAreTheSame => {
                NotificationRuleViolation::AuthorAndOwnerAreTheSame
            },
            NotificationRuleViolation::NoPatchStatusSet => {
                NotificationRuleViolation::NoPatchStatusSet
            },
            NotificationRuleViolation::OwnerNotSubscribedToComments(owner) => {
                NotificationRuleViolation::OwnerNotSubscribedToComments(owner.clone())
            },
            NotificationRuleViolation::OwnerIgnoresCommentsByUser(owner, user) => {
                NotificationRuleViolation::OwnerIgnoresCommentsByUser(owner.clone(), user.clone())
            },
            NotificationRuleViolation::OwnerIgnoresCommentsForProject(owner, project) => {
                NotificationRuleViolation::OwnerIgnoresCommentsForProject(
                    owner.clone(),
                    project.clone(),
                )
            },
            NotificationRuleViolation::OwnerNotSubscribedToSubmitNotification(owner) => {
                NotificationRuleViolation::OwnerNotSubscribedToSubmitNotification(owner.clone())
            },
            NotificationRuleViolation::OwnerNotSubscribedToVerfiedNotification(owner) => {
                NotificationRuleViolation::OwnerNotSubscribedToVerfiedNotification(owner.clone())
            },
            NotificationRuleViolation::ReviewerNotSubscribedToNotification(reviewer) => {
                NotificationRuleViolation::ReviewerNotSubscribedToNotification(reviewer.clone())
            },
            NotificationRuleViolation::ReviewerIgnoresReviewsByChangeOwner(reviewer, owner) => {
                NotificationRuleViolation::ReviewerIgnoresReviewsByChangeOwner(
                    reviewer.clone(),
                    owner.clone(),
                )
            },
        }
    }
}

impl Clone for ControllerError {
    fn clone(&self) -> (r: Self)
        ensures
            r == *self,
    {
        match self {
            ControllerError::RuleViolation(reason) => {
                ControllerError::RuleViolation(reason.clone())
            },
            ControllerError::Unrecoverable(message) => {
                ControllerError::Unrecoverable(message.clone())
            },
            ControllerError::Unspecified(message) => {
                ControllerError::Unspecified(message.clone())
            },
            ControllerError::UserMappingError(reason) => {
                ControllerError::UserMappingError(reason.clone())
            },
        }
    }
}

impl From<String> for ControllerError {
    fn from(err: String) -> (r: ControllerError) {
        ControllerError::Unspecified(err)
    }
}

impl vstd::std_specs::convert::FromSpecImpl<String> for ControllerError {
    open spec fn obeys_from_spec() -> bool {
        true
    }

    open spec fn from_spec(err: String) -> ControllerError {
        ControllerError::Unspecified(err)
    }
}

impl From<NotificationRuleViolation> for ControllerError {
    fn from(err: NotificationRuleViolation) -> (r: ControllerError) {
        ControllerError::RuleViolation(err)
    }
}

impl vstd::std_specs::convert::FromSpecImpl<NotificationRuleViolation> for ControllerError {
    open spec fn obeys_from_spec() -> bool {
        true
    }

    open spec fn from_spec(err: NotificationRuleViolation) -> ControllerError {
        ControllerError::RuleViolation(err)
    }
}

} // verus!
