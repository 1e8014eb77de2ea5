//! Notification preferences that apply to a user who reviews a patch.

use vstd::prelude::*;
use crate::types::settings::Settings;
use crate::types::{
    clone_projects, clone_topics, clone_usernames, GerritUsername, ProjectName, TopicName,
};

verus! {

/// Subscription flag and ignore lists for the reviewing role.
#[derive(Debug, PartialEq)]
pub struct ReviewerSettings {
    /// Be notified when you are added to review a patch.
    pub subscribe: bool,
    /// Ignore all notifications for these topics.
    pub ignore_topics: Vec<TopicName>,
    /// Ignore notifications for patches in these projects.
    pub ignore_projects: Vec<ProjectName>,
    /// Ignore all reviews coming from these usernames.
    pub ignore_by_username: Vec<GerritUsername>,
}

/// The mathematical content of a reviewing-role settings value.
#[verifier::ext_equal]
pub ghost struct ReviewerSettingsView {
    pub subscribe: bool,
    pub ignore_topics: Seq<Seq<char>>,
    pub ignore_projects: Seq<Seq<char>>,
    pub ignore_by_username: Seq<Seq<char>>,
}

impl View for ReviewerSettings {
    type V = ReviewerSettingsView;

    open spec fn view(&self) -> ReviewerSettingsView {
        ReviewerSettingsView {
            subscribe: self.subscribe,
            ignore_topics: self.ignore_topics@.map_values(|t: TopicName| t@),
            ignore_projects: self.ignore_projects@.map_values(|p: ProjectName| p@),
            ignore_by_username: self.ignore_by_username@.map_values(|u: GerritUsername| u@),
        }
    }
}

impl ReviewerSettings {
    /// The reviewing-role projection of a settings envelope.
    pub fn from(origin: Settings) -> (r: ReviewerSettings)
        ensures
            r == origin.spec_reviewer(),
    {
        match origin {
            Settings::V1 { as_reviewer, as_owner: _ } => as_reviewer,
        }
    }
}

impl Clone for ReviewerSettings {
    fn clone(&self) -> (r: Self)
        ensures
            r.subscribe == self.subscribe,
            r.ignore_topics@ == self.ignore_topics@,
            r.ignore_projects@ == self.ignore_projects@,
            r.ignore_by_username@ == self.ignore_by_username@,
    {
        let r = ReviewerSettings {
            subscribe: self.subscribe,
            ignore_topics: clone_topics(&self.ignore_topics),
            ignore_projects: clone_projects(&self.ignore_projects),
            ignore_by_username: clone_usernames(&self.ignore_by_username),
        };
        r
    }
}

} // verus!
