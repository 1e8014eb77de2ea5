//! Notification preferences that apply to a user as the owner of a patch.

use vstd::prelude::*;
use crate::types::settings::Settings;
use crate::types::{clone_projects, clone_usernames, GerritUsername, ProjectName};

verus! {

/// Subscription flags and ignore lists for the owner role.
#[derive(Debug, PartialEq)]
pub struct OwnerSettings {
    /// Be notified when someone comments on your patch.
    pub subscribe_comment: bool,
    /// Be notified about changes to the verify score.
    pub subscribe_verified: bool,
    /// Be notified when a patch becomes ready to submit.
    pub subscribe_ready_for_submit: bool,
    /// Be notified when someone submits your patch.
    pub subscribe_submitted: bool,
    /// Ignore comments that only carry a score change.
    pub ignore_empty_review_comments: bool,
    /// Ignore all comments by these usernames.
    pub ignore_by_username: Vec<GerritUsername>,
    /// Ignore notifications for patches in these projects.
    pub ignore_projects: Vec<ProjectName>,
}

/// The mathematical content of an owner-role settings value.
#[verifier::ext_equal]
pub ghost struct OwnerSettingsView {
    pub subscribe_comment: bool,
    pub subscribe_verified: bool,
    pub subscribe_ready_for_submit: bool,
    pub subscribe_submitted: bool,
    pub ignore_empty_review_comments: bool,
    pub ignore_by_username: Seq<Seq<char>>,
    pub ignore_projects: Seq<Seq<char>>,
}

impl View for OwnerSettings {
    type V = OwnerSettingsView;

    open spec fn view(&self) -> OwnerSettingsView {
        OwnerSettingsView {
            subscribe_comment: self.subscribe_comment,
            subscribe_verified: self.subscribe_verified,
            subscribe_ready_for_submit: self.subscribe_ready_for_submit,
            subscribe_submitted: self.subscribe_submitted,
            ignore_empty_review_comments: self.ignore_empty_review_comments,
            ignore_by_username: self.ignore_by_username@.map_values(|u: GerritUsername| u@),
            ignore_projects: self.ignore_projects@.map_values(|p: ProjectName| p@),
        }
    }
}

impl OwnerSettings {
    /// The owner-role projection of a settings envelope.
    pub fn from(origin: Settings) -> (r: OwnerSettings)
        ensures
            r == origin.spec_owner(),
    {
        match origin {
            Settings::V1 { as_reviewer: _, as_owner } => as_owner,
        }
    }
}

impl Clone for OwnerSettings {
    fn clone(&self) -> (r: Self)
        ensures
            r.subscribe_comment == self.subscribe_comment,
            r.subscribe_verified == self.subscribe_verified,
            r.subscribe_ready_for_submit == self.subscribe_ready_for_submit,
            r.subscribe_submitted == self.subscribe_submitted,
            r.ignore_empty_review_comments == self.ignore_empty_review_comments,
            r.ignore_by_username@ == self.ignore_by_username@,
            r.ignore_projects@ == self.ignore_projects@,
    {
        let r = OwnerSettings {
            subscribe_comment: self.subscribe_comment,
            subscribe_verified: self.subscribe_verified,
            subscribe_ready_for_submit: self.subscribe_ready_for_submit,
            subscribe_submitted: self.subscribe_submitted,
            ignore_empty_review_comments: self.ignore_empty_review_comments,
            ignore_by_username: clone_usernames(&self.ignore_by_username),
            ignore_projects: clone_projects(&self.ignore_projects),
        };
        r
    }
}

} // verus!
