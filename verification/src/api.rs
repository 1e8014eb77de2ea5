//! Where each trigger kind is forwarded: the hook clients post every trigger
//! to the local notification server, comment and status changes sharing one
//! endpoint.

use vstd::prelude::*;
use crate::types::GerritTrigger;

verus! {

/// The server endpoint a trigger must be posted to.
pub fn trigger_endpoint(params: &GerritTrigger) -> (r: &'static str)
    ensures
        match *params {
            GerritTrigger::CommentAdded(_) => r@
                == "http://localhost:8088/trigger/comment_added"@,
            GerritTrigger::PatchStatusChanged(_) => r@
                == "http://localhost:8088/trigger/comment_added"@,
            GerritTrigger::ReviewerAdded(_) => r@
                == "http://localhost:8088/trigger/reviewer_added"@,
        },
{
    match params {
        GerritTrigger::CommentAdded(_) => "http://localhost:8088/trigger/comment_added",
        GerritTrigger::PatchStatusChanged(_) => "http://localhost:8088/trigger/comment_added",
        GerritTrigger::ReviewerAdded(_) => "http://localhost:8088/trigger/reviewer_added",
    }
}

} // verus!
