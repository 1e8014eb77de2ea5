//! The normalized trigger events handed in by the review system's hooks.

use vstd::prelude::*;
use crate::types::patch_status::PatchStatus;
use crate::types::{GerritUsername, ProjectName};

verus! {

/// A notification-worthy occurrence on the review system.
#[derive(Debug)]
pub enum GerritTrigger {
    CommentAdded(CommentAddedData),
    ReviewerAdded(ReviewerAddedData),
    PatchStatusChanged(PatchStatusChangedData),
}

/// What every trigger needs to address the change owner.
#[derive(Debug)]
pub struct BaseData {
    pub change_owner: String,
    pub change_owner_username: GerritUsername,
    pub change_url: String,
    pub project: ProjectName,
}

impl Clone for BaseData {
    fn clone(&self) -> (r: Self)
        ensures
            r == *self,
    {
        BaseData {
            change_owner: self.change_owner.clone(),
            change_owner_username: self.change_owner_username.clone(),
            change_url: self.change_url.clone(),
            project: self.project.clone(),
        }
    }
}

#[derive(Debug)]
pub struct PatchStatusChangedData {
    pub base: BaseData,
    pub author_username: GerritUsername,
    pub patch_status: PatchStatus,
}

#[derive(Debug)]
pub struct CommentAddedData {
    pub base: BaseData,
    pub author: String,
    pub author_username: GerritUsername,
}

#[derive(Debug)]
pub struct ReviewerAddedData {
    pub change_owner: String,
    pub change_owner_username: GerritUsername,
    pub reviewer: String,
    pub reviewer_username: GerritUsername,
    pub change_url: String,
    pub project: String,
}

} // verus!
