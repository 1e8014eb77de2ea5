//! The versioned envelope holding one user's notification preferences.

use vstd::prelude::*;
use crate::types::owner_settings::{OwnerSettings, OwnerSettingsView};
use crate::types::reviewer_settings::{ReviewerSettings, ReviewerSettingsView};

verus! {

/// The mathematical content of a settings envelope.
#[verifier::ext_equal]
pub ghost struct SettingsView {
    pub as_reviewer: ReviewerSettingsView,
    pub as_owner: OwnerSettingsView,
}

/// Per-user settings, versioned so that persisted records can evolve.
#[derive(Debug, PartialEq)]
pub enum Settings {
    V1 { as_reviewer: ReviewerSettings, as_owner: OwnerSettings },
}

impl View for Settings {
    type V = SettingsView;

    open spec fn view(&self) -> SettingsView {
        SettingsView { as_reviewer: self.spec_reviewer()@, as_owner: self.spec_owner()@ }
    }
}

impl Settings {
    pub open spec fn spec_owner(self) -> OwnerSettings {
        match self {
            Settings::V1 { as_reviewer: _, as_owner } => as_owner,
        }
    }

    pub open spec fn spec_reviewer(self) -> ReviewerSettings {
        match self {
            Settings::V1 { as_reviewer, as_owner: _ } => as_reviewer,
        }
    }
}

impl Clone for Settings {
    fn clone(&self) -> (r: Self)
        ensures
            r.spec_owner().subscribe_comment == self.spec_owner().subscribe_comment,
            r.spec_owner().subscribe_verified == self.spec_owner().subscribe_verified,
            r.spec_owner().subscribe_ready_for_submit == self.spec_owner().subscribe_ready_for_submit,
            r.spec_owner().subscribe_submitted == self.spec_owner().subscribe_submitted,
            r.spec_owner().ignore_empty_review_comments == self.spec_owner().ignore_empty_review_comments,
            r.spec_owner().ignore_by_username@ == self.spec_owner().ignore_by_username@,
            r.spec_owner().ignore_projects@ == self.spec_owner().ignore_projects@,
            r.spec_reviewer().subscribe == self.spec_reviewer().subscribe,
            r.spec_reviewer().ignore_topics@ == self.spec_reviewer().ignore_topics@,
            r.spec_reviewer().ignore_projects@ == self.spec_reviewer().ignore_projects@,
            r.spec_reviewer().ignore_by_username@ == self.spec_reviewer().ignore_by_username@,
    {
        match self {
            Settings::V1 { as_reviewer, as_owner } => Settings::V1 {
                as_reviewer: as_reviewer.clone(),
                as_owner: as_owner.clone(),
            },
        }
    }
}

} // verus!
