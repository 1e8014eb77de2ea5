//! The per-user rule engine: pure decision functions that accept a trigger or
//! reject it with a typed reason.

pub mod comment_added;
pub mod patch_status;
pub mod reviewer_added;
