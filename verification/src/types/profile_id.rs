//! The chat backend's profile identity.

use vstd::prelude::*;
use vstd::string::StrSliceExecFns;
use crate::text::{
    dec_digits, lemma_dec_digits_val, parse_u32, spec_parse_u32, str_starts_with, u32_to_string,
};

verus! {

/// A profile identity on the chat backend.  Its canonical string form is
/// `PROFILE,<n>`.
#[derive(Clone, Copy, Debug, PartialEq, Eq, Structural)]
pub struct ProfileId(pub u32);

/// The canonical string form of a profile identity.
pub open spec fn spec_profile_text(id: ProfileId) -> Seq<char> {
    "PROFILE,"@ + dec_digits(id.0 as nat)
}

/// The profile identity a string denotes: defined exactly on the canonical
/// `PROFILE,<digits>` form with an in-range number.
pub open spec fn spec_profile_id_of(s: Seq<char>) -> Option<ProfileId> {
    if s.len() >= 8 && s.subrange(0, 8) == "PROFILE,"@ && spec_parse_u32(s.skip(8)) is Some {
        Some(ProfileId(spec_parse_u32(s.skip(8))->0))
    } else {
        None
    }
}

impl ProfileId {
    pub fn with_profile_prefix(&self) -> (r: String)
        ensures
            r@ == spec_profile_text(*self),
    {
        let mut r = String::from_str("PROFILE,");
        let digits = u32_to_string(self.0);
        r.append(digits.as_str());
        r
    }

    /// Parses the canonical `PROFILE,<n>` form; any other shape is an error.
    pub fn try_from(value: &str) -> (r: Result<ProfileId, &'static str>)
        ensures
            match spec_profile_id_of(value@) {
                Some(p) => r == Ok::<ProfileId, &'static str>(p),
                None => r is Err,
            },
    {
        proof {
            reveal_strlit("PROFILE,");
        }
        if !str_starts_with(value, "PROFILE,") {
            return Err("expected the PROFILE,<n> form");
        }
        let len = value.unicode_len();
        let digits = value.substring_char(8, len);
        proof {
            assert(digits@ =~= value@.skip(8));
        }
        match parse_u32(digits) {
            Some(n) => Ok(ProfileId(n)),
            None => Err("expected the PROFILE,<n> form"),
        }
    }
}

/// Round trip: the canonical string form of a profile identity parses back to
/// the same identity.
pub proof fn lemma_profile_text_round_trip(id: ProfileId)
    ensures
        spec_profile_id_of(spec_profile_text(id)) == Some(id),
{
    reveal_strlit("PROFILE,");
    let s = spec_profile_text(id);
    lemma_dec_digits_val(id.0 as nat);
    assert(s.subrange(0, 8) =~= "PROFILE,"@);
    assert(s.skip(8) =~= dec_digits(id.0 as nat));
}

} // verus!
