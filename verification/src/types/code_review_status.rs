//! The code-review score attached to a patch.

use vstd::prelude::*;
use crate::text::{spec_trim, str_eq, trimmed};

verus! {

/// A code-review score.  `Neutral` stands for the score `0`.
#[derive(Clone, Copy, Debug, PartialEq, Eq, Structural)]
pub enum CodeReviewStatus {
    PlusTwo,
    PlusOne,
    Neutral,
    MinusOne,
    MinusTwo,
}

impl CodeReviewStatus {
    /// The score as the review system prints it.
    pub open spec fn spec_text(self) -> Seq<char> {
        match self {
            CodeReviewStatus::PlusTwo => "+2"@,
            CodeReviewStatus::PlusOne => "+1"@,
            CodeReviewStatus::Neutral => "0"@,
            CodeReviewStatus::MinusOne => "-1"@,
            CodeReviewStatus::MinusTwo => "-2"@,
        }
    }

    pub fn as_text(&self) -> (r: &'static str)
        ensures
            r@ == self.spec_text(),
    {
        match self {
            CodeReviewStatus::PlusTwo => "+2",
            CodeReviewStatus::PlusOne => "+1",
            CodeReviewStatus::Neutral => "0",
            CodeReviewStatus::MinusOne => "-1",
            CodeReviewStatus::MinusTwo => "-2",
        }
    }

    /// What parsing a score string yields: the four non-zero scores after
    /// trimming; anything else counts as the neutral score.
    pub open spec fn spec_from(s: Seq<char>) -> CodeReviewStatus {
        if spec_trim(s) == "2"@ {
            CodeReviewStatus::PlusTwo
        } else if spec_trim(s) == "1"@ {
            CodeReviewStatus::PlusOne
        } else if spec_trim(s) == "-1"@ {
            CodeReviewStatus::MinusOne
        } else if spec_trim(s) == "-2"@ {
            CodeReviewStatus::MinusTwo
        } else {
            CodeReviewStatus::Neutral
        }
    }

    pub fn from(value: &str) -> (r: CodeReviewStatus)
        ensures
            r == CodeReviewStatus::spec_from(value@),
    {
        let t = trimmed(value);
        if str_eq(t, "2") {
            CodeReviewStatus::PlusTwo
        } else if str_eq(t, "1") {
            CodeReviewStatus::PlusOne
        } else if str_eq(t, "-1") {
            CodeReviewStatus::MinusOne
        } else if str_eq(t, "-2") {
            CodeReviewStatus::MinusTwo
        } else {
            CodeReviewStatus::Neutral
        }
    }
}

} // verus!
