//! Composes the human-readable notification text for an accepted trigger.

use vstd::prelude::*;
use crate::types::{BaseData, CommentAddedData, GerritTrigger, PatchStatus, ReviewerAddedData,
    VerifiedStatus};

verus! {

/// Pure message composition.  The composer only needs to know the review
/// system's domain, from which it constructs the patch URLs.
pub struct NotificationMessageComposer {
    pub domain: String,
}

impl NotificationMessageComposer {
    pub fn create(domain: String) -> (r: NotificationMessageComposer)
        ensures
            r.domain@ == domain@,
    {
        NotificationMessageComposer { domain }
    }

    /// The URL of the patch a trigger talks about.
    pub open spec fn spec_patch_url(self, base: BaseData) -> Seq<char> {
        "https://"@ + self.domain@ + "/c/"@ + base.project@ + "/+/"@ + base.change_url@
    }

    pub fn generate_patch_url(&self, base: &BaseData) -> (r: String)
        ensures
            r@ == self.spec_patch_url(*base),
    {
        let mut r = String::from_str("https://");
        r.append(self.domain.as_str());
        r.append("/c/");
        r.append(base.project.0.as_str());
        r.append("/+/");
        r.append(base.change_url.as_str());
        r
    }

    /// The emoji attached to a verify score.
    pub open spec fn spec_verified_emoji(verified: VerifiedStatus) -> Seq<char> {
        match verified {
            VerifiedStatus::PlusOne => "🌈"@,
            VerifiedStatus::MinusOne => "😰"@,
            VerifiedStatus::Neutral => ""@,
        }
    }

    /// The text for a verify-score change.  A neutral score cannot be
    /// announced; reaching it here is an invariant violation, answered with a
    /// diagnosable placeholder rather than a panic.
    pub open spec fn spec_verified_message(self, verified: VerifiedStatus, data: BaseData) -> Seq<
        char,
    > {
        if verified == VerifiedStatus::Neutral {
            "Crazy logic error. Don't tell anyone about MetallicSheep."@
        } else {
            verified.spec_text() + " Verified for your patch "@
                + Self::spec_verified_emoji(verified) + " "@ + self.spec_patch_url(data) + "."@
        }
    }

    pub fn compose_verified_message(&self, verified: &VerifiedStatus, data: &BaseData) -> (r:
        String)
        ensures
            r@ == self.spec_verified_message(*verified, *data),
    {
        if let VerifiedStatus::Neutral = verified {
            return String::from_str("Crazy logic error. Don't tell anyone about MetallicSheep.");
        }

        let emoji: &'static str = match verified {
            VerifiedStatus::PlusOne => "🌈",
            VerifiedStatus::MinusOne => "😰",
            VerifiedStatus::Neutral => "",
        };

        let mut r = String::from_str(verified.as_text());
        r.append(" Verified for your patch ");
        r.append(emoji);
        r.append(" ");
        let url = self.generate_patch_url(data);
        r.append(url.as_str());
        r.append(".");
        r
    }

    /// The text for a patch that became ready to submit.
    pub open spec fn spec_ready_for_submit_message(self, data: BaseData) -> Seq<char> {
        "☑️ A patch is ready to submit! ✨ "@ + self.spec_patch_url(data)
    }

    pub fn compose_ready_for_submit_message(&self, data: &BaseData) -> (r: String)
        ensures
            r@ == self.spec_ready_for_submit_message(*data),
    {
        let mut r = String::from_str("☑️ A patch is ready to submit! ✨ ");
        let url = self.generate_patch_url(data);
        r.append(url.as_str());
        r
    }

    /// The text for a new comment.
    pub open spec fn spec_comment_added_message(self, data: CommentAddedData) -> Seq<char> {
        "Comment was added by "@ + data.author_username@ + ". 💬 "@ + self.spec_patch_url(
            data.base,
        )
    }

    pub fn compose_comment_added_message(&self, data: &CommentAddedData) -> (r: String)
        ensures
            r@ == self.spec_comment_added_message(*data),
    {
        let mut r = String::from_str("Comment was added by ");
        r.append(data.author_username.0.as_str());
        r.append(". 💬 ");
        let url = self.generate_patch_url(&data.base);
        r.append(url.as_str());
        r
    }

    /// The text for a user added to review a patch, with the review URL
    /// constructed from the project and the change id.
    pub open spec fn spec_reviewer_added_message(self, data: ReviewerAddedData) -> Seq<char> {
        "You were added to review a patch. https://"@ + self.domain@ + "/c/"@ + data.project@
            + "/+/"@ + data.change_url@
    }

    pub fn compose_reviewer_added_message(&self, data: &ReviewerAddedData) -> (r: String)
        ensures
            r@ == self.spec_reviewer_added_message(*data),
    {
        let mut r = String::from_str("You were added to review a patch. https://");
        r.append(self.domain.as_str());
        r.append("/c/");
        r.append(data.project.as_str());
        r.append("/+/");
        r.append(data.change_url.as_str());
        r
    }

    /// What `compose` yields for a trigger: a text for comments, verify
    /// changes, ready-to-submit patches and added-to-review triggers;
    /// nothing for the status changes no notification text exists for.
    pub open spec fn spec_compose(self, value: GerritTrigger) -> Option<Seq<char>> {
        match value {
            GerritTrigger::CommentAdded(data) => Some(self.spec_comment_added_message(data)),
            GerritTrigger::PatchStatusChanged(data) => match data.patch_status {
                PatchStatus::Both(_, v) => Some(self.spec_verified_message(v, data.base)),
                PatchStatus::Verified(v) => Some(self.spec_verified_message(v, data.base)),
                PatchStatus::ReadyForSubmit => Some(
                    self.spec_ready_for_submit_message(data.base),
                ),
                PatchStatus::CodeReview(_) => None,
                PatchStatus::NoChange => None,
            },
            GerritTrigger::ReviewerAdded(data) => Some(self.spec_reviewer_added_message(data)),
        }
    }

    pub fn compose(&self, value: &GerritTrigger) -> (r: Result<String, ()>)
        ensures
            match self.spec_compose(*value) {
                Some(text) => r is Ok && r->Ok_0@ == text,
                None => r is Err,
            },
    {
        match value {
            GerritTrigger::CommentAdded(data) => Ok(self.compose_comment_added_message(data)),
            GerritTrigger::PatchStatusChanged(data) => match &data.patch_status {
                PatchStatus::Both(_, v) => Ok(self.compose_verified_message(v, &data.base)),
                PatchStatus::Verified(v) => Ok(self.compose_verified_message(v, &data.base)),
                PatchStatus::ReadyForSubmit => Ok(
                    self.compose_ready_for_submit_message(&data.base),
                ),
                PatchStatus::CodeReview(_) => Err(()),
                PatchStatus::NoChange => Err(()),
            },
            GerritTrigger::ReviewerAdded(data) => Ok(self.compose_reviewer_added_message(data)),
        }
    }
}

} // verus!
