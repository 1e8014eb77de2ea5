//! The decision core behind the trigger endpoints: rule checks, user-data
//! extraction, and the per-trigger orchestration.

pub mod comment_added;
pub mod error;
pub mod notification_rules;
pub mod patch_status;
pub mod reviewer_added;
pub mod util;
