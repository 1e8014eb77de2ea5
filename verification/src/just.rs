//! Helpers around the chat backend: deriving search candidates from a
//! display name, and the backend's URL scheme.

use vstd::prelude::*;
use vstd::string::StrSliceExecFns;
use crate::text::{find_char, has_char, spec_trim, trimmed};

pub mod responses;

verus! {

/// The prefix of `s` up to (excluding) the first occurrence of `c`; all of
/// `s` when `c` does not occur.
pub open spec fn spec_up_to(s: Seq<char>, c: char) -> Seq<char>
    decreases s.len(),
{
    if s.len() == 0 {
        s
    } else if s.first() == c {
        Seq::empty()
    } else {
        seq![s.first()] + spec_up_to(s.drop_first(), c)
    }
}

/// The suffix of `s` after the last occurrence of `c`; all of `s` when `c`
/// does not occur.
pub open spec fn spec_after_last(s: Seq<char>, c: char) -> Seq<char>
    decreases s.len(),
{
    if s.len() == 0 {
        s
    } else if s.last() == c {
        Seq::empty()
    } else {
        spec_after_last(s.drop_last(), c).push(s.last())
    }
}

proof fn lemma_up_to_is_prefix(s: Seq<char>, i: int)
    requires
        0 <= i < s.len(),
        s[i] == '<',
        forall|j: int| 0 <= j < i ==> s[j] != '<',
    ensures
        spec_up_to(s, '<') == s.subrange(0, i),
    decreases i,
{
    if i == 0 {
        assert(spec_up_to(s, '<') =~= s.subrange(0, 0));
    } else {
        let t = s.drop_first();
        lemma_up_to_is_prefix(t, i - 1);
        assert(spec_up_to(s, '<') == seq![s.first()] + spec_up_to(t, '<'));
        assert(seq![s.first()] + t.subrange(0, i - 1) =~= s.subrange(0, i));
    }
}

/// The display name with its trailing `<email>` annotation removed: the part
/// before the first `<`, trimmed.
pub open spec fn spec_remove_email(s: Seq<char>) -> Seq<char> {
    spec_trim(spec_up_to(s, '<'))
}

pub fn remove_email_from_owner(change_owner: &str) -> (r: &str)
    requires
        has_char(change_owner@, '<'),
    ensures
        r@ == spec_remove_email(change_owner@),
{
    let start_of_email = match find_char(change_owner, '<') {
        Some(i) => i,
        None => {
            proof {
                assert(false);
            }
            0
        },
    };
    proof {
        lemma_up_to_is_prefix(change_owner@, start_of_email as int);
    }
    let prefix = change_owner.substring_char(0, start_of_email);
    trimmed(prefix)
}

/// The first whitespace-delimited token of the email-stripped display name.
pub open spec fn spec_user_firstname(s: Seq<char>) -> Seq<char> {
    spec_up_to(spec_remove_email(s), ' ')
}

/// The last whitespace-delimited token of the email-stripped display name.
pub open spec fn spec_user_lastname(s: Seq<char>) -> Seq<char> {
    spec_after_last(spec_remove_email(s), ' ')
}

pub fn user_firstname(change_owner: &str) -> (r: &str)
    requires
        has_char(change_owner@, '<'),
    ensures
        r@ == spec_user_firstname(change_owner@),
{
    let fullname = remove_email_from_owner(change_owner);
    let end = match find_char(fullname, ' ') {
        Some(i) => i,
        None => fullname.unicode_len(),
    };
    proof {
        lemma_up_to_space(fullname@, end as int);
    }
    fullname.substring_char(0, end)
}

proof fn lemma_up_to_space(s: Seq<char>, i: int)
    requires
        0 <= i <= s.len(),
        forall|j: int| 0 <= j < i ==> s[j] != ' ',
        i < s.len() ==> s[i] == ' ',
    ensures
        spec_up_to(s, ' ') == s.subrange(0, i),
    decreases i,
{
    if s.len() == 0 {
        assert(spec_up_to(s, ' ') =~= s.subrange(0, 0));
    } else if i == 0 {
        if s.first() == ' ' {
            assert(spec_up_to(s, ' ') =~= s.subrange(0, 0));
        } else {
            assert(i < s.len() && s[0] != ' ');
            assert(false);
        }
    } else {
        let t = s.drop_first();
        lemma_up_to_space(t, i - 1);
        assert(spec_up_to(s, ' ') == seq![s.first()] + spec_up_to(t, ' '));
        assert(seq![s.first()] + t.subrange(0, i - 1) =~= s.subrange(0, i));
    }
}

proof fn lemma_after_last_space(s: Seq<char>, i: int)
    requires
        0 <= i <= s.len(),
        forall|j: int| i <= j < s.len() ==> s[j] != ' ',
        i > 0 ==> s[i - 1] == ' ',
    ensures
        spec_after_last(s, ' ') == s.subrange(i, s.len() as int),
    decreases s.len() - i,
{
    if i == s.len() {
        if i > 0 {
            assert(s.last() == ' ');
            assert(spec_after_last(s, ' ') =~= s.subrange(i, s.len() as int));
        } else {
            assert(s.len() == 0);
            assert(spec_after_last(s, ' ') =~= s.subrange(0, 0));
        }
    } else {
        lemma_after_last_suffix(s, i);
    }
}

proof fn lemma_after_last_suffix(s: Seq<char>, i: int)
    requires
        0 <= i < s.len(),
        forall|j: int| i <= j < s.len() ==> s[j] != ' ',
        i > 0 ==> s[i - 1] == ' ',
    ensures
        spec_after_last(s, ' ') == s.subrange(i, s.len() as int),
    decreases s.len() - i,
{
    if i == s.len() - 1 {
        if i == 0 {
            assert(s.len() == 1 && s.last() != ' ');
            assert(spec_after_last(s.drop_last(), ' ') =~= Seq::<char>::empty());
            assert(spec_after_last(s, ' ') =~= s.subrange(i, s.len() as int));
        } else {
            assert(s.drop_last().last() == s[i - 1]);
            assert(spec_after_last(s, ' ') == spec_after_last(s.drop_last(), ' ').push(s.last()));
            assert(spec_after_last(s.drop_last(), ' ') =~= Seq::<char>::empty());
            assert(spec_after_last(s, ' ') =~= s.subrange(i, s.len() as int));
        }
    } else {
        let t = s.drop_last();
        lemma_after_last_suffix(t, i);
        assert(spec_after_last(s, ' ') == spec_after_last(t, ' ').push(s.last()));
        assert(t.subrange(i, t.len() as int).push(s.last()) =~= s.subrange(i, s.len() as int));
    }
}

pub fn user_lastname(change_owner: &str) -> (r: &str)
    requires
        has_char(change_owner@, '<'),
    ensures
        r@ == spec_user_lastname(change_owner@),
{
    let fullname = remove_email_from_owner(change_owner);
    let len = fullname.unicode_len();
    let mut start: usize = len;
    while start > 0 && fullname.get_char(start - 1) != ' '
        invariant
            len == fullname@.len(),
            start <= len,
            forall|j: int| start <= j < len ==> fullname@[j] != ' ',
        decreases start,
    {
        start -= 1;
    }
    proof {
        lemma_after_last_space(fullname@, start as int);
    }
    fullname.substring_char(start, len)
}

/// A URL on the chat backend: `https://<domain>/<path>`.
pub open spec fn spec_api_url(domain: Seq<char>, path: Seq<char>) -> Seq<char> {
    "https://"@ + domain + "/"@ + path
}

pub fn make_api_url(domain: &str, path: &str) -> (r: String)
    ensures
        r@ == spec_api_url(domain@, path@),
{
    let mut r = String::from_str("https://");
    r.append(domain);
    r.append("/");
    r.append(path);
    r
}

} // verus!
