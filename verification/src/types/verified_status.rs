//! The verify score attached to a patch.

use vstd::prelude::*;
use crate::text::{spec_trim, str_eq, trimmed};

verus! {

/// A verify score.  `Neutral` stands for the score `0`.
#[derive(Clone, Copy, Debug, PartialEq, Eq, Structural)]
pub enum VerifiedStatus {
    PlusOne,
    Neutral,
    MinusOne,
}

impl VerifiedStatus {
    /// The score as the review system prints it.
    pub open spec fn spec_text(self) -> Seq<char> {
        match self {
            VerifiedStatus::PlusOne => "+1"@,
            VerifiedStatus::Neutral => "0"@,
            VerifiedStatus::MinusOne => "-1"@,
        }
    }

    pub fn as_text(&self) -> (r: &'static str)
        ensures
            r@ == self.spec_text(),
    {
        match self {
            VerifiedStatus::PlusOne => "+1",
            VerifiedStatus::Neutral => "0",
            VerifiedStatus::MinusOne => "-1",
        }
    }

    /// What parsing a score string yields: `+1` and `-1` after trimming;
    /// anything else counts as the neutral score.
    pub open spec fn spec_from(s: Seq<char>) -> VerifiedStatus {
        if spec_trim(s) == "1"@ {
            VerifiedStatus::PlusOne
        } else if spec_trim(s) == "-1"@ {
            VerifiedStatus::MinusOne
        } else {
            VerifiedStatus::Neutral
        }
    }

    pub fn from(value: &str) -> (r: VerifiedStatus)
        ensures
            r == VerifiedStatus::spec_from(value@),
    {
        let t = trimmed(value);
        if str_eq(t, "1") {
            VerifiedStatus::PlusOne
        } else if str_eq(t, "-1") {
            VerifiedStatus::MinusOne
        } else {
            VerifiedStatus::Neutral
        }
    }
}

} // verus!
