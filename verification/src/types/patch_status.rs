//! Classifying a score transition on a patch.

use vstd::prelude::*;
use crate::types::code_review_status::CodeReviewStatus;
use crate::types::verified_status::VerifiedStatus;

verus! {

/// The derived classification of a code-review/verify score transition.
/// `NoChange` stands for a comment that changed neither score.
#[derive(Clone, Copy, Debug, PartialEq, Eq, Structural)]
pub enum PatchStatus {
    Both(CodeReviewStatus, VerifiedStatus),
    CodeReview(CodeReviewStatus),
    Verified(VerifiedStatus),
    ReadyForSubmit,
    NoChange,
}

/// How a score transition is classified: a `+2` review together with a `+1`
/// verify means the patch is ready to submit; otherwise a supplied old verify
/// score wins over a supplied old review score; with no old score at all,
/// nothing changed.
pub open spec fn spec_patch_status(
    code_review: CodeReviewStatus,
    code_review_old: Option<CodeReviewStatus>,
    verified: VerifiedStatus,
    verified_old: Option<VerifiedStatus>,
) -> PatchStatus {
    if code_review == CodeReviewStatus::PlusTwo && verified == VerifiedStatus::PlusOne {
        PatchStatus::ReadyForSubmit
    } else if verified_old is Some {
        PatchStatus::Verified(verified)
    } else if code_review_old is Some {
        PatchStatus::CodeReview(code_review)
    } else {
        PatchStatus::NoChange
    }
}

pub fn patch_status(
    code_review: &CodeReviewStatus,
    code_review_old: &Option<CodeReviewStatus>,
    verified: &VerifiedStatus,
    verified_old: &Option<VerifiedStatus>,
) -> (r: PatchStatus)
    ensures
        r == spec_patch_status(*code_review, *code_review_old, *verified, *verified_old),
{
    if *code_review == CodeReviewStatus::PlusTwo && *verified == VerifiedStatus::PlusOne {
        return PatchStatus::ReadyForSubmit;
    }
    if verified_old.is_some() {
        return PatchStatus::Verified(*verified);
    }
    if code_review_old.is_some() {
        return PatchStatus::CodeReview(*code_review);
    }
    PatchStatus::NoChange
}

} // verus!
