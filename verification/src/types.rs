//! The data vocabulary of the notification core.

use vstd::prelude::*;

mod code_review_status;
mod connection_parameters;
mod conversation_id;
mod gerrit_triggers;
mod owner_settings;
mod patch_status;
mod path_to_user_data;
mod profile_id;
mod reviewer_settings;
mod settings;
mod synchronization;
mod verified_status;

pub use code_review_status::CodeReviewStatus;
pub use connection_parameters::ConnectionParameters;
pub use conversation_id::ConversationId;
pub use gerrit_triggers::{
    BaseData, CommentAddedData, GerritTrigger, PatchStatusChangedData, ReviewerAddedData,
};
pub use owner_settings::{OwnerSettings, OwnerSettingsView};
pub use patch_status::{patch_status, spec_patch_status, PatchStatus};
pub use path_to_user_data::PathToUserData;
pub use profile_id::{lemma_profile_text_round_trip, spec_profile_id_of, spec_profile_text,
    ProfileId};
pub use reviewer_settings::{ReviewerSettings, ReviewerSettingsView};
pub use settings::{Settings, SettingsView};
pub use synchronization::Synchronization;
pub use verified_status::VerifiedStatus;

verus! {

/// A topic name on the review system.
#[derive(Debug)]
pub struct TopicName(pub String);

impl PartialEq for TopicName {
    fn eq(&self, other: &TopicName) -> (r: bool) {
        self.0 == other.0
    }
}

impl vstd::std_specs::cmp::PartialEqSpecImpl for TopicName {
    open spec fn obeys_eq_spec() -> bool {
        true
    }

    open spec fn eq_spec(&self, other: &TopicName) -> bool {
        self.0@ == other.0@
    }
}

impl TopicName {
    pub fn from(value: &str) -> (r: TopicName)
        ensures
            r.0@ == value@,
    {
        TopicName(value.to_owned())
    }
}

impl Clone for TopicName {
    fn clone(&self) -> (r: Self)
        ensures
            r == *self,
    {
        TopicName(self.0.clone())
    }
}

impl View for TopicName {
    type V = Seq<char>;

    open spec fn view(&self) -> Seq<char> {
        self.0@
    }
}

/// A project name on the review system.
#[derive(Debug)]
pub struct ProjectName(pub String);

impl ProjectName {
    pub fn from(value: &str) -> (r: ProjectName)
        ensures
            r.0@ == value@,
    {
        ProjectName(value.to_owned())
    }
}

impl Clone for ProjectName {
    fn clone(&self) -> (r: Self)
        ensures
            r == *self,
    {
        ProjectName(self.0.clone())
    }
}

impl View for ProjectName {
    type V = Seq<char>;

    open spec fn view(&self) -> Seq<char> {
        self.0@
    }
}

impl PartialEq for ProjectName {
    fn eq(&self, other: &ProjectName) -> (r: bool) {
        self.0 == other.0
    }
}

impl vstd::std_specs::cmp::PartialEqSpecImpl for ProjectName {
    open spec fn obeys_eq_spec() -> bool {
        true
    }

    open spec fn eq_spec(&self, other: &ProjectName) -> bool {
        self.0@ == other.0@
    }
}

/// A username on the review system; the key of every per-user record.
#[derive(Debug)]
pub struct GerritUsername(pub String);

impl GerritUsername {
    pub fn from(value: &str) -> (r: GerritUsername)
        ensures
            r.0@ == value@,
    {
        GerritUsername(value.to_owned())
    }
}

impl Clone for GerritUsername {
    fn clone(&self) -> (r: Self)
        ensures
            r == *self,
    {
        GerritUsername(self.0.clone())
    }
}

impl View for GerritUsername {
    type V = Seq<char>;

    open spec fn view(&self) -> Seq<char> {
        self.0@
    }
}

impl PartialEq for GerritUsername {
    fn eq(&self, other: &GerritUsername) -> (r: bool) {
        self.0 == other.0
    }
}

impl vstd::std_specs::cmp::PartialEqSpecImpl for GerritUsername {
    open spec fn obeys_eq_spec() -> bool {
        true
    }

    open spec fn eq_spec(&self, other: &GerritUsername) -> bool {
        self.0@ == other.0@
    }
}

/// Does the list hold a username with this name?
pub open spec fn spec_contains_username(s: Seq<GerritUsername>, name: Seq<char>) -> bool {
    exists|i: int| 0 <= i < s.len() && s[i]@ == name
}

pub fn contains_username(v: &Vec<GerritUsername>, name: &GerritUsername) -> (r: bool)
    ensures
        r == spec_contains_username(v@, name@),
{
    let mut i: usize = 0;
    while i < v.len()
        invariant
            i <= v.len(),
            forall|j: int| 0 <= j < i ==> v@[j]@ != name@,
        decreases v.len() - i,
    {
        if v[i] == *name {
            return true;
        }
        i += 1;
    }
    false
}

/// Does the list hold a project with this name?
pub open spec fn spec_contains_project(s: Seq<ProjectName>, name: Seq<char>) -> bool {
    exists|i: int| 0 <= i < s.len() && s[i]@ == name
}

pub fn contains_project(v: &Vec<ProjectName>, name: &ProjectName) -> (r: bool)
    ensures
        r == spec_contains_project(v@, name@),
{
    let mut i: usize = 0;
    while i < v.len()
        invariant
            i <= v.len(),
            forall|j: int| 0 <= j < i ==> v@[j]@ != name@,
        decreases v.len() - i,
    {
        if v[i] == *name {
            return true;
        }
        i += 1;
    }
    false
}

pub(crate) fn clone_usernames(v: &Vec<GerritUsername>) -> (r: Vec<GerritUsername>)
    ensures
        r@ =~= v@,
{
    let mut r: Vec<GerritUsername> = Vec::new();
    let mut i: usize = 0;
    while i < v.len()
        invariant
            i <= v.len(),
            r@ =~= v@.subrange(0, i as int),
        decreases v.len() - i,
    {
        r.push(v[i].clone());
        proof {
            assert(r@ =~= v@.subrange(0, i as int + 1));
        }
        i += 1;
    }
    proof {
        assert(v@.subrange(0, v@.len() as int) =~= v@);
    }
    r
}

pub(crate) fn clone_projects(v: &Vec<ProjectName>) -> (r: Vec<ProjectName>)
    ensures
        r@ =~= v@,
{
    let mut r: Vec<ProjectName> = Vec::new();
    let mut i: usize = 0;
    while i < v.len()
        invariant
            i <= v.len(),
            r@ =~= v@.subrange(0, i as int),
        decreases v.len() - i,
    {
        r.push(v[i].clone());
        proof {
            assert(r@ =~= v@.subrange(0, i as int + 1));
        }
        i += 1;
    }
    proof {
        assert(v@.subrange(0, v@.len() as int) =~= v@);
    }
    r
}

pub(crate) fn clone_topics(v: &Vec<TopicName>) -> (r: Vec<TopicName>)
    ensures
        r@ =~= v@,
{
    let mut r: Vec<TopicName> = Vec::new();
    let mut i: usize = 0;
    while i < v.len()
        invariant
            i <= v.len(),
            r@ =~= v@.subrange(0, i as int),
        decreases v.len() - i,
    {
        r.push(v[i].clone());
        proof {
            assert(r@ =~= v@.subrange(0, i as int + 1));
        }
        i += 1;
    }
    proof {
        assert(v@.subrange(0, v@.len() as int) =~= v@);
    }
    r
}

} // verus!
