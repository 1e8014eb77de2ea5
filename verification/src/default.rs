//! The built-in default settings, as a value and as the document text
//! written on a user's first access.

use vstd::prelude::*;
use crate::types::{GerritUsername, OwnerSettings, ReviewerSettings, Settings};

verus! {

/// The settings document created for a user who has none yet.  The comments
/// double as the documentation a user finds when editing the file.
pub const DEFAULT_SETTINGS: &'static str = r#"V1 (
    /*
     * All settings below apply to you, only when you review a given
     * patch.
     */
    as_reviewer: (
        // Be notified when you are added to review a patch
        subscribe: false,

        /*
         * Ignore ALL notifications for these topics, e.g. [("merge-commit")],
         * on patches that you are added to review.
         *
         * This means you wont receive notifications that you were added to
         * review, or that the review was updated etc.
         */
        //ignore_topics: [("my-topic")]
        ignore_topics: [],

        /*
         * Ignore notifications for certain projects. Only active when you
         * review the patch.
         */
        //ignore_projects: [("my-project"), ("another-project")]
        ignore_projects: [],

        /*
         * Ignore ALL comments by the given gerrit username.
         */
        ignore_by_username: [("tools.just"), ("ec2.gerrit")],
    ),

    /*
     * All settings below apply to you, only when you are the owner of a given patch.
     */
    as_owner: (
        /*
         * Be notified when someone comments on your patch.
         */
        subscribe_comment: false,

        /*
         * Be notified about changes to the Verified status. You'll receive
         * notifications when your patch receives -1 or +1.
         */
        subscribe_verified: false,

        /*
         * Be notified if your patch can be submitted.
         */
        subscribe_ready_for_submit: false,

        /*
         * Be notified if someone submits your patch.
         */
        subscribe_submitted: false,

       /*
        * Ignore comments that only mention a change to the review status. In
        * other words: if someone sets +1/-1/+2/-2 wihtout writing a comment,
        * you won't receive a notification.
        */
       ignore_empty_review_comments: false,

        /*
         * Ignore ALL comments by the given gerrit username.
         */
        ignore_by_username: [("tools.just"), ("ec2.gerrit")],

        /*
         * Ignore ALL notifications for certain projects. Only when you are the
         * owner of the patch in the specified project.
         */
        //ignore_projects: [("my-project"), ("another-project")]
        ignore_projects: [],
    )
)"#;

/// What the built-in defaults say: no subscription is on, nothing is
/// ignored, except that the two tooling accounts are ignored in both roles.
pub open spec fn spec_is_default_settings(s: Settings) -> bool {
    let o = s.spec_owner();
    let rv = s.spec_reviewer();
    &&& !rv.subscribe
    &&& rv.ignore_topics@.len() == 0
    &&& rv.ignore_projects@.len() == 0
    &&& rv.ignore_by_username@.len() == 2
    &&& rv.ignore_by_username@[0]@ == "tools.just"@
    &&& rv.ignore_by_username@[1]@ == "ec2.gerrit"@
    &&& !o.subscribe_comment
    &&& !o.subscribe_verified
    &&& !o.subscribe_ready_for_submit
    &&& !o.subscribe_submitted
    &&& !o.ignore_empty_review_comments
    &&& o.ignore_by_username@.len() == 2
    &&& o.ignore_by_username@[0]@ == "tools.just"@
    &&& o.ignore_by_username@[1]@ == "ec2.gerrit"@
    &&& o.ignore_projects@.len() == 0
}

/// The built-in defaults as a value.
pub fn default_settings() -> (r: Settings)
    ensures
        spec_is_default_settings(r),
{
    let mut reviewer_ignores: Vec<GerritUsername> = Vec::new();
    reviewer_ignores.push(GerritUsername::from("tools.just"));
    reviewer_ignores.push(GerritUsername::from("ec2.gerrit"));
    let mut owner_ignores: Vec<GerritUsername> = Vec::new();
    owner_ignores.push(GerritUsername::from("tools.just"));
    owner_ignores.push(GerritUsername::from("ec2.gerrit"));
    Settings::V1 {
        as_reviewer: ReviewerSettings {
            subscribe: false,
            ignore_topics: Vec::new(),
            ignore_projects: Vec::new(),
            ignore_by_username: reviewer_ignores,
        },
        as_owner: OwnerSettings {
            subscribe_comment: false,
            subscribe_verified: false,
            subscribe_ready_for_submit: false,
            subscribe_submitted: false,
            ignore_empty_review_comments: false,
            ignore_by_username: owner_ignores,
            ignore_projects: Vec::new(),
        },
    }
}

} // verus!
