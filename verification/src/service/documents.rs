//! The text format of the persisted per-user documents.
//!
//! Each user owns two documents: a synchronization record (the resolution
//! state) and a settings record.  Both are structured text; this module
//! holds the serializers and the parsers, each proved against a spec-level
//! definition of the grammar.  The parsers accept what the serializers
//! emit, hand-edited settings documents included: blanks, line and block
//! comments, reordered fields and trailing commas are all tolerated.

use vstd::prelude::*;
use vstd::string::StrSliceExecFns;
use crate::text::{
    blank, dec_digits, is_blank, lemma_dec_digits_val, parse_u32, spec_parse_u32, spec_trim,
    str_eq, str_starts_with, trimmed, u32_to_string,
};
use crate::types::{
    GerritUsername, OwnerSettings, OwnerSettingsView, ProfileId, ProjectName, ReviewerSettings,
    ReviewerSettingsView, Settings, SettingsView, Synchronization, TopicName,
};

verus! {

/// The text of a synchronization record.  The variant vocabulary is the
/// persisted one, kept stable so that existing documents stay readable.
pub open spec fn spec_sync_record_text(state: Synchronization<ProfileId>) -> Seq<char> {
    match state {
        Synchronization::Resolved(p) => "Some(("@ + dec_digits(p.0 as nat) + "))"@,
        Synchronization::ConfirmedAbsent => "None"@,
        Synchronization::Unattempted => "NotMappedYet"@,
    }
}

pub fn sync_record_text(state: &Synchronization<ProfileId>) -> (r: String)
    ensures
        r@ == spec_sync_record_text(*state),
{
    match state {
        Synchronization::Resolved(p) => {
            let mut r = String::from_str("Some((");
            let digits = u32_to_string(p.0);
            r.append(digits.as_str());
            r.append("))");
            r
        },
        Synchronization::ConfirmedAbsent => String::from_str("None"),
        Synchronization::Unattempted => String::from_str("NotMappedYet"),
    }
}

/// What parsing a synchronization record yields.  The record is trimmed
/// first; an unrecognized shape yields nothing.
pub open spec fn spec_parse_sync_record(s: Seq<char>) -> Option<Synchronization<ProfileId>> {
    let t = spec_trim(s);
    if t == "None"@ {
        Some(Synchronization::ConfirmedAbsent)
    } else if t == "NotMappedYet"@ {
        Some(Synchronization::Unattempted)
    } else if t.len() >= 9 && t.subrange(0, 6) == "Some(("@ && t.subrange(
        t.len() - 2,
        t.len() as int,
    ) == "))"@ && spec_parse_u32(t.subrange(6, t.len() - 2)) is Some {
        Some(Synchronization::Resolved(ProfileId(spec_parse_u32(t.subrange(6, t.len() - 2))->0)))
    } else {
        None
    }
}

pub fn parse_sync_record(s: &str) -> (r: Option<Synchronization<ProfileId>>)
    ensures
        r == spec_parse_sync_record(s@),
{
    proof {
        reveal_strlit("Some((");
        reveal_strlit("))");
    }
    let t = trimmed(s);
    if str_eq(t, "None") {
        return Some(Synchronization::ConfirmedAbsent);
    }
    if str_eq(t, "NotMappedYet") {
        return Some(Synchronization::Unattempted);
    }
    let len = t.unicode_len();
    if len < 9 {
        return None;
    }
    if !str_starts_with(t, "Some((") {
        return None;
    }
    let tail = t.substring_char(len - 2, len);
    if !str_eq(tail, "))") {
        return None;
    }
    let digits = t.substring_char(6, len - 2);
    proof {
        assert(t@.subrange(0, 6) =~= "Some(("@);
    }
    match parse_u32(digits) {
        Some(n) => Some(Synchronization::Resolved(ProfileId(n))),
        None => None,
    }
}

/// A sequence with no leading or trailing blank trims to itself.
proof fn lemma_trim_id(s: Seq<char>)
    requires
        s.len() > 0,
        !is_blank(s.first()),
        !is_blank(s.last()),
    ensures
        spec_trim(s) == s,
{
}

/// Round trip: a serialized synchronization record parses back to the same
/// state.
pub proof fn lemma_sync_record_round_trip(state: Synchronization<ProfileId>)
    ensures
        spec_parse_sync_record(spec_sync_record_text(state)) == Some(state),
{
    reveal_strlit("Some((");
    reveal_strlit("))");
    reveal_strlit("None");
    reveal_strlit("NotMappedYet");
    let s = spec_sync_record_text(state);
    match state {
        Synchronization::ConfirmedAbsent => {
            lemma_trim_id(s);
        },
        Synchronization::Unattempted => {
            lemma_trim_id(s);
            assert(spec_trim(s) != "None"@);
        },
        Synchronization::Resolved(p) => {
            lemma_dec_digits_val(p.0 as nat);
            let d = dec_digits(p.0 as nat);
            assert(s.len() == 8 + d.len());
            assert(s.first() == 'S');
            assert(s.last() == ')');
            lemma_trim_id(s);
            assert(spec_trim(s) != "None"@);
            assert(spec_trim(s) != "NotMappedYet"@) by {
                if s.len() == 12 {
                    assert(s[0] == 'S' && "NotMappedYet"@[0] == 'N');
                }
            }
            assert(s.subrange(0, 6) =~= "Some(("@);
            assert(s.subrange(s.len() - 2, s.len() as int) =~= "))"@);
            assert(s.subrange(6, s.len() - 2) =~= d);
            assert(spec_parse_u32(d) == Some(p.0));
        },
    }
}

/// The text of a boolean in a settings document.
pub open spec fn spec_bool_text(b: bool) -> Seq<char> {
    if b {
        "true"@
    } else {
        "false"@
    }
}

/// A quoted name entry in an ignore list: `("name")`.
pub open spec fn spec_quoted(s: Seq<char>) -> Seq<char> {
    "(\""@ + s + "\")"@
}

/// The comma-separated body of an ignore list.
pub open spec fn spec_list_body(items: Seq<Seq<char>>) -> Seq<char>
    decreases items.len(),
{
    if items.len() == 0 {
        Seq::empty()
    } else if items.len() == 1 {
        spec_quoted(items[0])
    } else {
        spec_quoted(items[0]) + ","@ + spec_list_body(items.drop_first())
    }
}

proof fn lemma_list_body_snoc(items: Seq<Seq<char>>, x: Seq<char>)
    ensures
        spec_list_body(items.push(x)) == if items.len() == 0 {
            spec_quoted(x)
        } else {
            spec_list_body(items) + ","@ + spec_quoted(x)
        },
    decreases items.len(),
{
    let pushed = items.push(x);
    if items.len() == 0 {
        assert(pushed.len() == 1);
        assert(pushed[0] == x);
    } else {
        assert(pushed.len() >= 2);
        assert(pushed[0] == items[0]);
        assert(pushed.drop_first() =~= items.drop_first().push(x));
        lemma_list_body_snoc(items.drop_first(), x);
        if items.len() == 1 {
            assert(spec_list_body(pushed) =~= spec_list_body(items) + ","@ + spec_quoted(x));
        } else {
            assert(spec_list_body(pushed) =~= spec_list_body(items) + ","@ + spec_quoted(x));
        }
    }
}

/// The canonical text of a settings envelope, as the store writes it.
pub open spec fn spec_settings_text(s: Settings) -> Seq<char> {
    let o = s.spec_owner();
    let rv = s.spec_reviewer();
    "V1(as_reviewer:(subscribe:"@ + spec_bool_text(rv.subscribe) + ",ignore_topics:["@
        + spec_list_body(rv.ignore_topics@.map_values(|t: TopicName| t@)) + "],ignore_projects:["@
        + spec_list_body(rv.ignore_projects@.map_values(|p: ProjectName| p@))
        + "],ignore_by_username:["@
        + spec_list_body(rv.ignore_by_username@.map_values(|u: GerritUsername| u@))
        + "]),as_owner:(subscribe_comment:"@ + spec_bool_text(o.subscribe_comment)
        + ",subscribe_verified:"@ + spec_bool_text(o.subscribe_verified)
        + ",subscribe_ready_for_submit:"@ + spec_bool_text(o.subscribe_ready_for_submit)
        + ",subscribe_submitted:"@ + spec_bool_text(o.subscribe_submitted)
        + ",ignore_empty_review_comments:"@ + spec_bool_text(o.ignore_empty_review_comments)
        + ",ignore_by_username:["@
        + spec_list_body(o.ignore_by_username@.map_values(|u: GerritUsername| u@))
        + "],ignore_projects:["@
        + spec_list_body(o.ignore_projects@.map_values(|p: ProjectName| p@)) + "]))"@
}

fn append_bool(out: &mut String, b: bool)
    ensures
        final(out)@ == old(out)@ + spec_bool_text(b),
{
    if b {
        out.append("true");
    } else {
        out.append("false");
    }
}

fn append_quoted(out: &mut String, name: &str)
    ensures
        final(out)@ == old(out)@ + spec_quoted(name@),
{
    out.append("(\"");
    out.append(name);
    out.append("\")");
    proof {
        assert(out@ =~= old(out)@ + spec_quoted(name@));
    }
}

fn append_username_list(out: &mut String, items: &Vec<GerritUsername>)
    ensures
        final(out)@ == old(out)@ + spec_list_body(
            items@.map_values(|u: GerritUsername| u@),
        ),
{
    let ghost views = items@.map_values(|u: GerritUsername| u@);
    let mut i: usize = 0;
    while i < items.len()
        invariant
            i <= items.len(),
            views == items@.map_values(|u: GerritUsername| u@),
            out@ == old(out)@ + spec_list_body(views.subrange(0, i as int)),
        decreases items.len() - i,
    {
        if i > 0 {
            out.append(",");
        }
        append_quoted(out, items[i].0.as_str());
        proof {
            let prefix = views.subrange(0, i as int);
            assert(views.subrange(0, i as int + 1) =~= prefix.push(views[i as int]));
            lemma_list_body_snoc(prefix, views[i as int]);
            assert(out@ =~= old(out)@ + spec_list_body(views.subrange(0, i as int + 1)));
        }
        i += 1;
    }
    proof {
        assert(views.subrange(0, views.len() as int) =~= views);
        assert(views.subrange(0, i as int) =~= views);
    }
}

fn append_project_list(out: &mut String, items: &Vec<ProjectName>)
    ensures
        final(out)@ == old(out)@ + spec_list_body(items@.map_values(|p: ProjectName| p@)),
{
    let ghost views = items@.map_values(|p: ProjectName| p@);
    let mut i: usize = 0;
    while i < items.len()
        invariant
            i <= items.len(),
            views == items@.map_values(|p: ProjectName| p@),
            out@ == old(out)@ + spec_list_body(views.subrange(0, i as int)),
        decreases items.len() - i,
    {
        if i > 0 {
            out.append(",");
        }
        append_quoted(out, items[i].0.as_str());
        proof {
            let prefix = views.subrange(0, i as int);
            assert(views.subrange(0, i as int + 1) =~= prefix.push(views[i as int]));
            lemma_list_body_snoc(prefix, views[i as int]);
            assert(out@ =~= old(out)@ + spec_list_body(views.subrange(0, i as int + 1)));
        }
        i += 1;
    }
    proof {
        assert(views.subrange(0, i as int) =~= views);
    }
}

fn append_topic_list(out: &mut String, items: &Vec<TopicName>)
    ensures
        final(out)@ == old(out)@ + spec_list_body(items@.map_values(|t: TopicName| t@)),
{
    let ghost views = items@.map_values(|t: TopicName| t@);
    let mut i: usize = 0;
    while i < items.len()
        invariant
            i <= items.len(),
            views == items@.map_values(|t: TopicName| t@),
            out@ == old(out)@ + spec_list_body(views.subrange(0, i as int)),
        decreases items.len() - i,
    {
        if i > 0 {
            out.append(",");
        }
        append_quoted(out, items[i].0.as_str());
        proof {
            let prefix = views.subrange(0, i as int);
            assert(views.subrange(0, i as int + 1) =~= prefix.push(views[i as int]));
            lemma_list_body_snoc(prefix, views[i as int]);
            assert(out@ =~= old(out)@ + spec_list_body(views.subrange(0, i as int + 1)));
        }
        i += 1;
    }
    proof {
        assert(views.subrange(0, i as int) =~= views);
    }
}

/// Serializes a settings envelope to its canonical text.
pub fn settings_text(s: &Settings) -> (r: String)
    ensures
        r@ == spec_settings_text(*s),
{
    let (rv, o) = match s {
        Settings::V1 { as_reviewer, as_owner } => (as_reviewer, as_owner),
    };
    let mut r = String::from_str("V1(as_reviewer:(subscribe:");
    append_bool(&mut r, rv.subscribe);
    r.append(",ignore_topics:[");
    append_topic_list(&mut r, &rv.ignore_topics);
    r.append("],ignore_projects:[");
    append_project_list(&mut r, &rv.ignore_projects);
    r.append("],ignore_by_username:[");
    append_username_list(&mut r, &rv.ignore_by_username);
    r.append("]),as_owner:(subscribe_comment:");
    append_bool(&mut r, o.subscribe_comment);
    r.append(",subscribe_verified:");
    append_bool(&mut r, o.subscribe_verified);
    r.append(",subscribe_ready_for_submit:");
    append_bool(&mut r, o.subscribe_ready_for_submit);
    r.append(",subscribe_submitted:");
    append_bool(&mut r, o.subscribe_submitted);
    r.append(",ignore_empty_review_comments:");
    append_bool(&mut r, o.ignore_empty_review_comments);
    r.append(",ignore_by_username:[");
    append_username_list(&mut r, &o.ignore_by_username);
    r.append("],ignore_projects:[");
    append_project_list(&mut r, &o.ignore_projects);
    r.append("]))");
    r
}

// ---------------------------------------------------------------------------
// The settings parser.
//
// It reads the document subset this crate itself writes, plus what careful
// hand edits add: blanks, `//` and `/* */` comments, any field order, and
// trailing commas.  String values may not contain escapes or quotes.  The
// whole grammar is defined once more as spec functions over `Seq<char>`
// (`spec_parse_settings` at the bottom), and every executable piece is
// proved equal to its spec twin.
// ---------------------------------------------------------------------------
/// The first line break at or after `pos`; the end of the text when none
/// follows.
pub open spec fn spec_line_end(s: Seq<char>, pos: int) -> int
    decreases s.len() - pos,
{
    if !(0 <= pos < s.len()) {
        s.len() as int
    } else if s[pos] == '\n' {
        pos
    } else {
        spec_line_end(s, pos + 1)
    }
}

/// The position after the `*/` closing a block comment; the end of the text
/// when the comment never closes.
pub open spec fn spec_block_end(s: Seq<char>, pos: int) -> int
    decreases s.len() - pos,
{
    if !(0 <= pos && pos + 1 < s.len()) {
        s.len() as int
    } else if s[pos] == '*' && s[pos + 1] == '/' {
        pos + 2
    } else {
        spec_block_end(s, pos + 1)
    }
}

/// The first position at or after `pos` that carries neither a blank nor a
/// comment.
pub open spec fn spec_skip_trivia(s: Seq<char>, pos: int) -> int
    decreases s.len() - pos,
{
    if !(0 <= pos < s.len()) {
        pos
    } else if is_blank(s[pos]) {
        spec_skip_trivia(s, pos + 1)
    } else if s[pos] == '/' && pos + 1 < s.len() && s[pos + 1] == '/' {
        let q = spec_line_end(s, pos + 2);
        if pos < q <= s.len() {
            spec_skip_trivia(s, q)
        } else {
            q
        }
    } else if s[pos] == '/' && pos + 1 < s.len() && s[pos + 1] == '*' {
        let q = spec_block_end(s, pos + 2);
        if pos < q <= s.len() {
            spec_skip_trivia(s, q)
        } else {
            q
        }
    } else {
        pos
    }
}

/// Advances over blanks and comments.
fn skip_trivia(s: &str, len: usize, pos: usize) -> (r: usize)
    requires
        len == s@.len(),
        pos <= len,
    ensures
        pos <= r <= len,
        r as int == spec_skip_trivia(s@, pos as int),
{
    let mut i: usize = pos;
    while i < len
        invariant
            len == s@.len(),
            pos <= i <= len,
            spec_skip_trivia(s@, pos as int) == spec_skip_trivia(s@, i as int),
        decreases len - i,
    {
        let c = s.get_char(i);
        if blank(c) {
            i = i + 1;
        } else if c == '/' && i + 1 < len && s.get_char(i + 1) == '/' {
            let ghost before = i as int;
            i = i + 2;
            while i < len && s.get_char(i) != '\n'
                invariant
                    len == s@.len(),
                    before + 2 <= i <= len,
                    spec_line_end(s@, before + 2) == spec_line_end(s@, i as int),
                decreases len - i,
            {
                i = i + 1;
            }
            proof {
                assert(spec_line_end(s@, before + 2) == i as int);
                assert(spec_skip_trivia(s@, before) == spec_skip_trivia(s@, i as int));
            }
        } else if c == '/' && i + 1 < len && s.get_char(i + 1) == '*' {
            let ghost before = i as int;
            i = i + 2;
            while len - i > 1 && !(s.get_char(i) == '*' && s.get_char(i + 1) == '/')
                invariant
                    len == s@.len(),
                    before + 2 <= i <= len,
                    spec_block_end(s@, before + 2) == spec_block_end(s@, i as int),
                decreases len - i,
            {
                i = i + 1;
            }
            if len - i > 1 {
                i = i + 2;
            } else {
                i = len;
            }
            proof {
                assert(spec_block_end(s@, before + 2) == i as int);
                assert(spec_skip_trivia(s@, before) == spec_skip_trivia(s@, i as int));
            }
        } else {
            return i;
        }
    }
    i
}

/// The character `c` standing at `pos`, consumed.
pub open spec fn spec_expect(s: Seq<char>, pos: int, c: char) -> Option<int> {
    if 0 <= pos < s.len() && s[pos] == c {
        Some(pos + 1)
    } else {
        None
    }
}

/// Consumes `c` at `pos`, if it stands there.
fn expect_char(s: &str, len: usize, pos: usize, c: char) -> (r: Option<usize>)
    requires
        len == s@.len(),
        pos <= len,
    ensures
        (r is Some) == (spec_expect(s@, pos as int, c) is Some),
        r matches Some(p) ==> pos < p <= len && spec_expect(s@, pos as int, c) == Some(p as int),
{
    if pos < len && s.get_char(pos) == c {
        Some(pos + 1)
    } else {
        None
    }
}

pub open spec fn spec_is_ident_char(c: char) -> bool {
    (97 <= c as int <= 122) || (65 <= c as int <= 90) || (48 <= c as int <= 57) || c == '_'
}

fn is_ident_char(c: char) -> (r: bool)
    ensures
        r == spec_is_ident_char(c),
{
    let u = c as u32;
    (97 <= u && u <= 122) || (65 <= u && u <= 90) || (48 <= u && u <= 57) || c == '_'
}

/// The end of the identifier starting at `pos`.
pub open spec fn spec_ident_end(s: Seq<char>, pos: int) -> int
    decreases s.len() - pos,
{
    if 0 <= pos < s.len() && spec_is_ident_char(s[pos]) {
        spec_ident_end(s, pos + 1)
    } else {
        pos
    }
}

fn ident_end(s: &str, len: usize, pos: usize) -> (r: usize)
    requires
        len == s@.len(),
        pos <= len,
    ensures
        pos <= r <= len,
        r as int == spec_ident_end(s@, pos as int),
{
    let mut i: usize = pos;
    while i < len && is_ident_char(s.get_char(i))
        invariant
            len == s@.len(),
            pos <= i <= len,
            spec_ident_end(s@, pos as int) == spec_ident_end(s@, i as int),
        decreases len - i,
    {
        i = i + 1;
    }
    i
}

/// The first `"` or `\` at or after `pos`; the end of the text when neither
/// occurs.
pub open spec fn spec_string_end(s: Seq<char>, pos: int) -> int
    decreases s.len() - pos,
{
    if !(0 <= pos < s.len()) {
        s.len() as int
    } else if s[pos] == '"' || s[pos] == '\\' {
        pos
    } else {
        spec_string_end(s, pos + 1)
    }
}

/// A quoted string value at `pos`: its characters and the position after
/// the closing quote.  Escapes are not part of the subset.
pub open spec fn spec_string_lit(s: Seq<char>, pos: int) -> Option<(Seq<char>, int)> {
    if !(0 <= pos < s.len() && s[pos] == '"') {
        None
    } else {
        let end = spec_string_end(s, pos + 1);
        if end >= s.len() || s[end] == '\\' {
            None
        } else {
            Some((s.subrange(pos + 1, end), end + 1))
        }
    }
}

/// A quoted string value; escapes are not part of the subset.
fn parse_string_lit(s: &str, len: usize, pos: usize) -> (r: Option<(String, usize)>)
    requires
        len == s@.len(),
        pos <= len,
    ensures
        (r is Some) == (spec_string_lit(s@, pos as int) is Some),
        r matches Some((v, p)) ==> pos < p <= len && (spec_string_lit(s@, pos as int) matches Some(
            (t, q),
        ) && v@ == t && p as int == q),
{
    if pos >= len || s.get_char(pos) != '"' {
        return None;
    }
    let mut j: usize = pos + 1;
    while j < len && s.get_char(j) != '"' && s.get_char(j) != '\\'
        invariant
            len == s@.len(),
            pos + 1 <= j <= len,
            spec_string_end(s@, pos as int + 1) == spec_string_end(s@, j as int),
        decreases len - j,
    {
        j = j + 1;
    }
    if j >= len || s.get_char(j) == '\\' {
        return None;
    }
    let value = s.substring_char(pos + 1, j).to_owned();
    Some((value, j + 1))
}

/// One ignore-list entry: `("name")`.
pub open spec fn spec_name_item(s: Seq<char>, pos: int) -> Option<(Seq<char>, int)> {
    match spec_expect(s, pos, '(') {
        None => None,
        Some(p1) => {
            let p2 = spec_skip_trivia(s, p1);
            match spec_string_lit(s, p2) {
                None => None,
                Some((v, p3)) => {
                    let p4 = spec_skip_trivia(s, p3);
                    match spec_expect(s, p4, ')') {
                        None => None,
                        Some(p5) => Some((v, p5)),
                    }
                },
            }
        },
    }
}

fn parse_name_item(s: &str, len: usize, pos: usize) -> (r: Option<(String, usize)>)
    requires
        len == s@.len(),
        pos <= len,
    ensures
        (r is Some) == (spec_name_item(s@, pos as int) is Some),
        r matches Some((v, p)) ==> pos < p <= len && (spec_name_item(s@, pos as int) matches Some(
            (t, q),
        ) && v@ == t && p as int == q),
{
    let p = match expect_char(s, len, pos, '(') {
        Some(p) => p,
        None => {
            return None;
        },
    };
    let p = skip_trivia(s, len, p);
    let (value, p) = match parse_string_lit(s, len, p) {
        Some(found) => found,
        None => {
            return None;
        },
    };
    let p = skip_trivia(s, len, p);
    match expect_char(s, len, p, ')') {
        Some(p) => Some((value, p)),
        None => None,
    }
}

/// The list entries from `pos` (just inside the `[`) to the closing `]`,
/// separated by commas, a trailing comma allowed.
pub open spec fn spec_list_rest(s: Seq<char>, pos: int) -> Option<(Seq<Seq<char>>, int)>
    decreases s.len() - pos,
{
    let p = spec_skip_trivia(s, pos);
    match spec_expect(s, p, ']') {
        Some(q) => Some((Seq::empty(), q)),
        None => match spec_name_item(s, p) {
            None => None,
            Some((v, p2)) => {
                let p3 = spec_skip_trivia(s, p2);
                match spec_expect(s, p3, ',') {
                    Some(p4) => if pos < p4 <= s.len() {
                        match spec_list_rest(s, p4) {
                            None => None,
                            Some((rest, q)) => Some((seq![v] + rest, q)),
                        }
                    } else {
                        None
                    },
                    None => match spec_expect(s, p3, ']') {
                        Some(q) => Some((seq![v], q)),
                        None => None,
                    },
                }
            },
        },
    }
}

/// An ignore list: `[("a"), ("b"),]`.
pub open spec fn spec_name_list(s: Seq<char>, pos: int) -> Option<(Seq<Seq<char>>, int)> {
    match spec_expect(s, pos, '[') {
        None => None,
        Some(p) => spec_list_rest(s, p),
    }
}

/// The views of the strings a list parse collected.
pub open spec fn names_view(items: Seq<String>) -> Seq<Seq<char>> {
    items.map_values(|x: String| x@)
}

/// An ignore list: `[("a"), ("b"),]`, with the trailing comma optional.
fn parse_name_list(s: &str, len: usize, pos: usize) -> (r: Option<(Vec<String>, usize)>)
    requires
        len == s@.len(),
        pos <= len,
    ensures
        (r is Some) == (spec_name_list(s@, pos as int) is Some),
        r matches Some((v, p)) ==> pos < p <= len && (spec_name_list(s@, pos as int) matches Some(
            (vs, q),
        ) && names_view(v@) == vs && p as int == q),
{
    let mut p = match expect_char(s, len, pos, '[') {
        Some(p) => p,
        None => {
            return None;
        },
    };
    let mut items: Vec<String> = Vec::new();
    loop
        invariant
            len == s@.len(),
            pos < p <= len,
            match spec_list_rest(s@, p as int) {
                Some((rest, q)) => spec_name_list(s@, pos as int) matches Some((vs, q2)) && vs
                    == names_view(items@) + rest && q2 == q,
                None => spec_name_list(s@, pos as int) is None,
            },
        decreases len - p,
    {
        let ghost entry = p as int;
        p = skip_trivia(s, len, p);
        if let Some(after) = expect_char(s, len, p, ']') {
            proof {
                assert(spec_list_rest(s@, entry) == Some((Seq::<Seq<char>>::empty(), after as int)));
                assert(names_view(items@) + Seq::<Seq<char>>::empty() =~= names_view(items@));
            }
            return Some((items, after));
        }
        let (value, after_item) = match parse_name_item(s, len, p) {
            Some(found) => found,
            None => {
                proof {
                    assert(spec_list_rest(s@, entry) is None);
                }
                return None;
            },
        };
        let ghost old_items = items@;
        items.push(value);
        p = skip_trivia(s, len, after_item);
        if let Some(after) = expect_char(s, len, p, ',') {
            proof {
                assert(names_view(items@) =~= names_view(old_items).push(value@));
                let next = spec_list_rest(s@, after as int);
                if next is Some {
                    let pair = next->0;
                    let rest = pair.1;
                    let head = pair.0;
                    assert(names_view(old_items) + (seq![value@] + head) =~= names_view(items@)
                        + head);
                }
            }
            p = after;
        } else {
            let after = match expect_char(s, len, p, ']') {
                Some(after) => after,
                None => {
                    proof {
                        assert(spec_list_rest(s@, entry) is None);
                    }
                    return None;
                },
            };
            proof {
                assert(spec_list_rest(s@, entry) == Some((seq![value@], after as int)));
                assert(names_view(items@) =~= names_view(old_items).push(value@));
                assert(names_view(old_items) + seq![value@] =~= names_view(items@));
            }
            return Some((items, after));
        }
    }
}

fn to_usernames(items: &Vec<String>) -> (r: Vec<GerritUsername>)
    ensures
        r@.map_values(|u: GerritUsername| u@) == names_view(items@),
{
    let mut r: Vec<GerritUsername> = Vec::new();
    let mut i: usize = 0;
    while i < items.len()
        invariant
            i <= items.len(),
            r@.len() == i,
            forall|j: int| 0 <= j < i ==> r@[j]@ == items@[j]@,
        decreases items.len() - i,
    {
        r.push(GerritUsername(items[i].clone()));
        i = i + 1;
    }
    proof {
        assert(r@.map_values(|u: GerritUsername| u@) =~= names_view(items@));
    }
    r
}

fn to_projects(items: &Vec<String>) -> (r: Vec<ProjectName>)
    ensures
        r@.map_values(|p: ProjectName| p@) == names_view(items@),
{
    let mut r: Vec<ProjectName> = Vec::new();
    let mut i: usize = 0;
    while i < items.len()
        invariant
            i <= items.len(),
            r@.len() == i,
            forall|j: int| 0 <= j < i ==> r@[j]@ == items@[j]@,
        decreases items.len() - i,
    {
        r.push(ProjectName(items[i].clone()));
        i = i + 1;
    }
    proof {
        assert(r@.map_values(|p: ProjectName| p@) =~= names_view(items@));
    }
    r
}

fn to_topics(items: &Vec<String>) -> (r: Vec<TopicName>)
    ensures
        r@.map_values(|t: TopicName| t@) == names_view(items@),
{
    let mut r: Vec<TopicName> = Vec::new();
    let mut i: usize = 0;
    while i < items.len()
        invariant
            i <= items.len(),
            r@.len() == i,
            forall|j: int| 0 <= j < i ==> r@[j]@ == items@[j]@,
        decreases items.len() - i,
    {
        r.push(TopicName(items[i].clone()));
        i = i + 1;
    }
    proof {
        assert(r@.map_values(|t: TopicName| t@) =~= names_view(items@));
    }
    r
}

/// A boolean value: the identifier `true` or `false`.
pub open spec fn spec_bool_lit(s: Seq<char>, pos: int) -> Option<(bool, int)> {
    let end = spec_ident_end(s, pos);
    if end == pos {
        None
    } else if s.subrange(pos, end) == "true"@ {
        Some((true, end))
    } else if s.subrange(pos, end) == "false"@ {
        Some((false, end))
    } else {
        None
    }
}

/// A boolean value: the identifier `true` or `false`.
fn parse_bool_lit(s: &str, len: usize, pos: usize) -> (r: Option<(bool, usize)>)
    requires
        len == s@.len(),
        pos <= len,
    ensures
        (r is Some) == (spec_bool_lit(s@, pos as int) is Some),
        r matches Some((v, p)) ==> pos < p <= len && spec_bool_lit(s@, pos as int) == Some(
            (v, p as int),
        ),
{
    let end = ident_end(s, len, pos);
    if end == pos {
        return None;
    }
    let word = s.substring_char(pos, end);
    if str_eq(word, "true") {
        Some((true, end))
    } else if str_eq(word, "false") {
        Some((false, end))
    } else {
        None
    }
}

/// The view of an optional collected name list.
pub open spec fn spec_opt_names(v: Option<Vec<String>>) -> Option<Seq<Seq<char>>> {
    match v {
        Some(items) => Some(names_view(items@)),
        None => None,
    }
}

/// The reviewing-role block from `pos` (just inside the `(`): fields in any
/// order, each exactly once, with the four collected so far carried along.
pub open spec fn spec_reviewer_fields(
    s: Seq<char>,
    pos: int,
    sub: Option<bool>,
    top: Option<Seq<Seq<char>>>,
    proj: Option<Seq<Seq<char>>>,
    user: Option<Seq<Seq<char>>>,
) -> Option<(ReviewerSettingsView, int)>
    decreases s.len() - pos,
{
    let p = spec_skip_trivia(s, pos);
    match spec_expect(s, p, ')') {
        Some(q) => match (sub, top, proj, user) {
            (Some(sb), Some(t), Some(pr), Some(u)) => Some(
                (
                    ReviewerSettingsView {
                        subscribe: sb,
                        ignore_topics: t,
                        ignore_projects: pr,
                        ignore_by_username: u,
                    },
                    q,
                ),
            ),
            _ => None,
        },
        None => {
            let end = spec_ident_end(s, p);
            if end == p {
                None
            } else {
                let field = s.subrange(p, end);
                let q1 = spec_skip_trivia(s, end);
                match spec_expect(s, q1, ':') {
                    None => None,
                    Some(q2) => {
                        let vpos = spec_skip_trivia(s, q2);
                        if field == "subscribe"@ {
                            if sub is Some {
                                None
                            } else {
                                match spec_bool_lit(s, vpos) {
                                    None => None,
                                    Some((v, after)) => {
                                        let p4 = spec_skip_trivia(s, after);
                                        let p5 = match spec_expect(s, p4, ',') {
                                            Some(a) => a,
                                            None => p4,
                                        };
                                        if pos < p5 <= s.len() {
                                            spec_reviewer_fields(s, p5, Some(v), top, proj, user)
                                        } else {
                                            None
                                        }
                                    },
                                }
                            }
                        } else if field == "ignore_topics"@ {
                            if top is Some {
                                None
                            } else {
                                match spec_name_list(s, vpos) {
                                    None => None,
                                    Some((v, after)) => {
                                        let p4 = spec_skip_trivia(s, after);
                                        let p5 = match spec_expect(s, p4, ',') {
                                            Some(a) => a,
                                            None => p4,
                                        };
                                        if pos < p5 <= s.len() {
                                            spec_reviewer_fields(s, p5, sub, Some(v), proj, user)
                                        } else {
                                            None
                                        }
                                    },
                                }
                            }
                        } else if field == "ignore_projects"@ {
                            if proj is Some {
                                None
                            } else {
                                match spec_name_list(s, vpos) {
                                    None => None,
                                    Some((v, after)) => {
                                        let p4 = spec_skip_trivia(s, after);
                                        let p5 = match spec_expect(s, p4, ',') {
                                            Some(a) => a,
                                            None => p4,
                                        };
                                        if pos < p5 <= s.len() {
                                            spec_reviewer_fields(s, p5, sub, top, Some(v), user)
                                        } else {
                                            None
                                        }
                                    },
                                }
                            }
                        } else if field == "ignore_by_username"@ {
                            if user is Some {
                                None
                            } else {
                                match spec_name_list(s, vpos) {
                                    None => None,
                                    Some((v, after)) => {
                                        let p4 = spec_skip_trivia(s, after);
                                        let p5 = match spec_expect(s, p4, ',') {
                                            Some(a) => a,
                                            None => p4,
                                        };
                                        if pos < p5 <= s.len() {
                                            spec_reviewer_fields(s, p5, sub, top, proj, Some(v))
                                        } else {
                                            None
                                        }
                                    },
                                }
                            }
                        } else {
                            None
                        }
                    },
                }
            }
        },
    }
}

/// The reviewing-role block behind its opening `(`.
pub open spec fn spec_reviewer_block(s: Seq<char>, pos: int) -> Option<(ReviewerSettingsView, int)> {
    match spec_expect(s, pos, '(') {
        None => None,
        Some(p) => spec_reviewer_fields(s, p, None, None, None, None),
    }
}

/// The reviewing-role block: `(subscribe: …, ignore_topics: […], …)`, fields
/// in any order, each exactly once.
fn parse_reviewer_block(s: &str, len: usize, pos: usize) -> (r: Option<(ReviewerSettings, usize)>)
    requires
        len == s@.len(),
        pos <= len,
    ensures
        (r is Some) == (spec_reviewer_block(s@, pos as int) is Some),
        r matches Some((v, p)) ==> pos < p <= len && (spec_reviewer_block(s@, pos as int)
            matches Some((view, q)) && v@ == view && p as int == q),
{
    let mut p = match expect_char(s, len, pos, '(') {
        Some(p) => p,
        None => {
            return None;
        },
    };
    let mut subscribe: Option<bool> = None;
    let mut topics: Option<Vec<String>> = None;
    let mut projects: Option<Vec<String>> = None;
    let mut usernames: Option<Vec<String>> = None;
    loop
        invariant
            len == s@.len(),
            pos < p <= len,
            spec_reviewer_block(s@, pos as int) == spec_reviewer_fields(
                s@,
                p as int,
                subscribe,
                spec_opt_names(topics),
                spec_opt_names(projects),
                spec_opt_names(usernames),
            ),
        decreases len - p,
    {
        let ghost entry = p as int;
        p = skip_trivia(s, len, p);
        if let Some(after) = expect_char(s, len, p, ')') {
            match (subscribe, topics, projects, usernames) {
                (Some(subscribe), Some(topics), Some(projects), Some(usernames)) => {
                    let settings = ReviewerSettings {
                        subscribe,
                        ignore_topics: to_topics(&topics),
                        ignore_projects: to_projects(&projects),
                        ignore_by_username: to_usernames(&usernames),
                    };
                    proof {
                        assert(settings@ =~= ReviewerSettingsView {
                            subscribe,
                            ignore_topics: names_view(topics@),
                            ignore_projects: names_view(projects@),
                            ignore_by_username: names_view(usernames@),
                        });
                    }
                    return Some((settings, after));
                },
                _ => {
                    return None;
                },
            }
        }
        let end = ident_end(s, len, p);
        if end == p {
            return None;
        }
        let field = s.substring_char(p, end);
        let after_colon = {
            let q = skip_trivia(s, len, end);
            match expect_char(s, len, q, ':') {
                Some(q) => skip_trivia(s, len, q),
                None => {
                    return None;
                },
            }
        };
        if str_eq(field, "subscribe") {
            if subscribe.is_some() {
                return None;
            }
            match parse_bool_lit(s, len, after_colon) {
                Some((value, after)) => {
                    subscribe = Some(value);
                    p = after;
                },
                None => {
                    return None;
                },
            }
        } else if str_eq(field, "ignore_topics") {
            if topics.is_some() {
                return None;
            }
            match parse_name_list(s, len, after_colon) {
                Some((value, after)) => {
                    topics = Some(value);
                    p = after;
                },
                None => {
                    return None;
                },
            }
        } else if str_eq(field, "ignore_projects") {
            if projects.is_some() {
                return None;
            }
            match parse_name_list(s, len, after_colon) {
                Some((value, after)) => {
                    projects = Some(value);
                    p = after;
                },
                None => {
                    return None;
                },
            }
        } else if str_eq(field, "ignore_by_username") {
            if usernames.is_some() {
                return None;
            }
            match parse_name_list(s, len, after_colon) {
                Some((value, after)) => {
                    usernames = Some(value);
                    p = after;
                },
                None => {
                    return None;
                },
            }
        } else {
            return None;
        }
        p = skip_trivia(s, len, p);
        if let Some(after) = expect_char(s, len, p, ',') {
            p = after;
        }
        proof {
            assert(entry < p as int <= s@.len());
        }
    }
}

/// The owner-role block from `pos` (just inside the `(`): fields in any
/// order, each exactly once, with the seven collected so far carried along.
pub open spec fn spec_owner_fields(
    s: Seq<char>,
    pos: int,
    sc: Option<bool>,
    sv: Option<bool>,
    sr: Option<bool>,
    ss: Option<bool>,
    ie: Option<bool>,
    user: Option<Seq<Seq<char>>>,
    proj: Option<Seq<Seq<char>>>,
) -> Option<(OwnerSettingsView, int)>
    decreases s.len() - pos,
{
    let p = spec_skip_trivia(s, pos);
    match spec_expect(s, p, ')') {
        Some(q) => match (sc, sv, sr, ss, ie, user, proj) {
            (Some(sc), Some(sv), Some(sr), Some(ss), Some(ie), Some(u), Some(pr)) => Some(
                (
                    OwnerSettingsView {
                        subscribe_comment: sc,
                        subscribe_verified: sv,
                        subscribe_ready_for_submit: sr,
                        subscribe_submitted: ss,
                        ignore_empty_review_comments: ie,
                        ignore_by_username: u,
                        ignore_projects: pr,
                    },
                    q,
                ),
            ),
            _ => None,
        },
        None => {
            let end = spec_ident_end(s, p);
            if end == p {
                None
            } else {
                let field = s.subrange(p, end);
                let q1 = spec_skip_trivia(s, end);
                match spec_expect(s, q1, ':') {
                    None => None,
                    Some(q2) => {
                        let vpos = spec_skip_trivia(s, q2);
                        if field == "subscribe_comment"@ {
                            if sc is Some {
                                None
                            } else {
                                match spec_bool_lit(s, vpos) {
                                    None => None,
                                    Some((v, after)) => {
                                        let p4 = spec_skip_trivia(s, after);
                                        let p5 = match spec_expect(s, p4, ',') {
                                            Some(a) => a,
                                            None => p4,
                                        };
                                        if pos < p5 <= s.len() {
                                            spec_owner_fields(
                                                s, p5, Some(v), sv, sr, ss, ie, user, proj,
                                            )
                                        } else {
                                            None
                                        }
                                    },
                                }
                            }
                        } else if field == "subscribe_verified"@ {
                            if sv is Some {
                                None
                            } else {
                                match spec_bool_lit(s, vpos) {
                                    None => None,
                                    Some((v, after)) => {
                                        let p4 = spec_skip_trivia(s, after);
                                        let p5 = match spec_expect(s, p4, ',') {
                                            Some(a) => a,
                                            None => p4,
                                        };
                                        if pos < p5 <= s.len() {
                                            spec_owner_fields(
                                                s, p5, sc, Some(v), sr, ss, ie, user, proj,
                                            )
                                        } else {
                                            None
                                        }
                                    },
                                }
                            }
                        } else if field == "subscribe_ready_for_submit"@ {
                            if sr is Some {
                                None
                            } else {
                                match spec_bool_lit(s, vpos) {
                                    None => None,
                                    Some((v, after)) => {
                                        let p4 = spec_skip_trivia(s, after);
                                        let p5 = match spec_expect(s, p4, ',') {
                                            Some(a) => a,
                                            None => p4,
                                        };
                                        if pos < p5 <= s.len() {
                                            spec_owner_fields(
                                                s, p5, sc, sv, Some(v), ss, ie, user, proj,
                                            )
                                        } else {
                                            None
                                        }
                                    },
                                }
                            }
                        } else if field == "subscribe_submitted"@ {
                            if ss is Some {
                                None
                            } else {
                                match spec_bool_lit(s, vpos) {
                                    None => None,
                                    Some((v, after)) => {
                                        let p4 = spec_skip_trivia(s, after);
                                        let p5 = match spec_expect(s, p4, ',') {
                                            Some(a) => a,
                                            None => p4,
                                        };
                                        if pos < p5 <= s.len() {
                                            spec_owner_fields(
                                                s, p5, sc, sv, sr, Some(v), ie, user, proj,
                                            )
                                        } else {
                                            None
                                        }
                                    },
                                }
                            }
                        } else if field == "ignore_empty_review_comments"@ {
                            if ie is Some {
                                None
                            } else {
                                match spec_bool_lit(s, vpos) {
                                    None => None,
                                    Some((v, after)) => {
                                        let p4 = spec_skip_trivia(s, after);
                                        let p5 = match spec_expect(s, p4, ',') {
                                            Some(a) => a,
                                            None => p4,
                                        };
                                        if pos < p5 <= s.len() {
                                            spec_owner_fields(
                                                s, p5, sc, sv, sr, ss, Some(v), user, proj,
                                            )
                                        } else {
                                            None
                                        }
                                    },
                                }
                            }
                        } else if field == "ignore_by_username"@ {
                            if user is Some {
                                None
                            } else {
                                match spec_name_list(s, vpos) {
                                    None => None,
                                    Some((v, after)) => {
                                        let p4 = spec_skip_trivia(s, after);
                                        let p5 = match spec_expect(s, p4, ',') {
                                            Some(a) => a,
                                            None => p4,
                                        };
                                        if pos < p5 <= s.len() {
                                            spec_owner_fields(
                                                s, p5, sc, sv, sr, ss, ie, Some(v), proj,
                                            )
                                        } else {
                                            None
                                        }
                                    },
                                }
                            }
                        } else if field == "ignore_projects"@ {
                            if proj is Some {
                                None
                            } else {
                                match spec_name_list(s, vpos) {
                                    None => None,
                                    Some((v, after)) => {
                                        let p4 = spec_skip_trivia(s, after);
                                        let p5 = match spec_expect(s, p4, ',') {
                                            Some(a) => a,
                                            None => p4,
                                        };
                                        if pos < p5 <= s.len() {
                                            spec_owner_fields(
                                                s, p5, sc, sv, sr, ss, ie, user, Some(v),
                                            )
                                        } else {
                                            None
                                        }
                                    },
                                }
                            }
                        } else {
                            None
                        }
                    },
                }
            }
        },
    }
}

/// The owner-role block behind its opening `(`.
pub open spec fn spec_owner_block(s: Seq<char>, pos: int) -> Option<(OwnerSettingsView, int)> {
    match spec_expect(s, pos, '(') {
        None => None,
        Some(p) => spec_owner_fields(s, p, None, None, None, None, None, None, None),
    }
}

/// The owner-role block, fields in any order, each exactly once.
fn parse_owner_block(s: &str, len: usize, pos: usize) -> (r: Option<(OwnerSettings, usize)>)
    requires
        len == s@.len(),
        pos <= len,
    ensures
        (r is Some) == (spec_owner_block(s@, pos as int) is Some),
        r matches Some((v, p)) ==> pos < p <= len && (spec_owner_block(s@, pos as int)
            matches Some((view, q)) && v@ == view && p as int == q),
{
    let mut p = match expect_char(s, len, pos, '(') {
        Some(p) => p,
        None => {
            return None;
        },
    };
    let mut subscribe_comment: Option<bool> = None;
    let mut subscribe_verified: Option<bool> = None;
    let mut subscribe_ready_for_submit: Option<bool> = None;
    let mut subscribe_submitted: Option<bool> = None;
    let mut ignore_empty: Option<bool> = None;
    let mut usernames: Option<Vec<String>> = None;
    let mut projects: Option<Vec<String>> = None;
    loop
        invariant
            len == s@.len(),
            pos < p <= len,
            spec_owner_block(s@, pos as int) == spec_owner_fields(
                s@,
                p as int,
                subscribe_comment,
                subscribe_verified,
                subscribe_ready_for_submit,
                subscribe_submitted,
                ignore_empty,
                spec_opt_names(usernames),
                spec_opt_names(projects),
            ),
        decreases len - p,
    {
        let ghost entry = p as int;
        p = skip_trivia(s, len, p);
        if let Some(after) = expect_char(s, len, p, ')') {
            match (
                subscribe_comment,
                subscribe_verified,
                subscribe_ready_for_submit,
                subscribe_submitted,
                ignore_empty,
                usernames,
                projects,
            ) {
                (
                    Some(subscribe_comment),
                    Some(subscribe_verified),
                    Some(subscribe_ready_for_submit),
                    Some(subscribe_submitted),
                    Some(ignore_empty_review_comments),
                    Some(usernames),
                    Some(projects),
                ) => {
                    let settings = OwnerSettings {
                        subscribe_comment,
                        subscribe_verified,
                        subscribe_ready_for_submit,
                        subscribe_submitted,
                        ignore_empty_review_comments,
                        ignore_by_username: to_usernames(&usernames),
                        ignore_projects: to_projects(&projects),
                    };
                    proof {
                        assert(settings@ =~= OwnerSettingsView {
                            subscribe_comment,
                            subscribe_verified,
                            subscribe_ready_for_submit,
                            subscribe_submitted,
                            ignore_empty_review_comments,
                            ignore_by_username: names_view(usernames@),
                            ignore_projects: names_view(projects@),
                        });
                    }
                    return Some((settings, after));
                },
                _ => {
                    return None;
                },
            }
        }
        let end = ident_end(s, len, p);
        if end == p {
            return None;
        }
        let field = s.substring_char(p, end);
        let after_colon = {
            let q = skip_trivia(s, len, end);
            match expect_char(s, len, q, ':') {
                Some(q) => skip_trivia(s, len, q),
                None => {
                    return None;
                },
            }
        };
        if str_eq(field, "subscribe_comment") {
            if subscribe_comment.is_some() {
                return None;
            }
            match parse_bool_lit(s, len, after_colon) {
                Some((value, after)) => {
                    subscribe_comment = Some(value);
                    p = after;
                },
                None => {
                    return None;
                },
            }
        } else if str_eq(field, "subscribe_verified") {
            if subscribe_verified.is_some() {
                return None;
            }
            match parse_bool_lit(s, len, after_colon) {
                Some((value, after)) => {
                    subscribe_verified = Some(value);
                    p = after;
                },
                None => {
                    return None;
                },
            }
        } else if str_eq(field, "subscribe_ready_for_submit") {
            if subscribe_ready_for_submit.is_some() {
                return None;
            }
            match parse_bool_lit(s, len, after_colon) {
                Some((value, after)) => {
                    subscribe_ready_for_submit = Some(value);
                    p = after;
                },
                None => {
                    return None;
                },
            }
        } else if str_eq(field, "subscribe_submitted") {
            if subscribe_submitted.is_some() {
                return None;
            }
            match parse_bool_lit(s, len, after_colon) {
                Some((value, after)) => {
                    subscribe_submitted = Some(value);
                    p = after;
                },
                None => {
                    return None;
                },
            }
        } else if str_eq(field, "ignore_empty_review_comments") {
            if ignore_empty.is_some() {
                return None;
            }
            match parse_bool_lit(s, len, after_colon) {
                Some((value, after)) => {
                    ignore_empty = Some(value);
                    p = after;
                },
                None => {
                    return None;
                },
            }
        } else if str_eq(field, "ignore_by_username") {
            if usernames.is_some() {
                return None;
            }
            match parse_name_list(s, len, after_colon) {
                Some((value, after)) => {
                    usernames = Some(value);
                    p = after;
                },
                None => {
                    return None;
                },
            }
        } else if str_eq(field, "ignore_projects") {
            if projects.is_some() {
                return None;
            }
            match parse_name_list(s, len, after_colon) {
                Some((value, after)) => {
                    projects = Some(value);
                    p = after;
                },
                None => {
                    return None;
                },
            }
        } else {
            return None;
        }
        p = skip_trivia(s, len, p);
        if let Some(after) = expect_char(s, len, p, ',') {
            p = after;
        }
        proof {
            assert(entry < p as int <= s@.len());
        }
    }
}

/// The envelope's two role blocks, in either order, each exactly once, with
/// nothing but trivia after the closing parenthesis.
pub open spec fn spec_settings_fields(
    s: Seq<char>,
    pos: int,
    rv: Option<ReviewerSettingsView>,
    ow: Option<OwnerSettingsView>,
) -> Option<SettingsView>
    decreases s.len() - pos,
{
    let p = spec_skip_trivia(s, pos);
    match spec_expect(s, p, ')') {
        Some(after) => {
            let tail = spec_skip_trivia(s, after);
            if tail != s.len() {
                None
            } else {
                match (rv, ow) {
                    (Some(rv), Some(ow)) => Some(SettingsView { as_reviewer: rv, as_owner: ow }),
                    _ => None,
                }
            }
        },
        None => {
            let end = spec_ident_end(s, p);
            if end == p {
                None
            } else {
                let field = s.subrange(p, end);
                let q1 = spec_skip_trivia(s, end);
                match spec_expect(s, q1, ':') {
                    None => None,
                    Some(q2) => {
                        let vpos = spec_skip_trivia(s, q2);
                        if field == "as_reviewer"@ {
                            if rv is Some {
                                None
                            } else {
                                match spec_reviewer_block(s, vpos) {
                                    None => None,
                                    Some((view, after)) => {
                                        let p4 = spec_skip_trivia(s, after);
                                        let p5 = match spec_expect(s, p4, ',') {
                                            Some(a) => a,
                                            None => p4,
                                        };
                                        if pos < p5 <= s.len() {
                                            spec_settings_fields(s, p5, Some(view), ow)
                                        } else {
                                            None
                                        }
                                    },
                                }
                            }
                        } else if field == "as_owner"@ {
                            if ow is Some {
                                None
                            } else {
                                match spec_owner_block(s, vpos) {
                                    None => None,
                                    Some((view, after)) => {
                                        let p4 = spec_skip_trivia(s, after);
                                        let p5 = match spec_expect(s, p4, ',') {
                                            Some(a) => a,
                                            None => p4,
                                        };
                                        if pos < p5 <= s.len() {
                                            spec_settings_fields(s, p5, rv, Some(view))
                                        } else {
                                            None
                                        }
                                    },
                                }
                            }
                        } else {
                            None
                        }
                    },
                }
            }
        },
    }
}

/// What parsing a settings document yields: the content of the `V1`
/// envelope, or nothing for an input outside the subset.
pub open spec fn spec_parse_settings(s: Seq<char>) -> Option<SettingsView> {
    let p0 = spec_skip_trivia(s, 0);
    let end = spec_ident_end(s, p0);
    if end == p0 || s.subrange(p0, end) != "V1"@ {
        None
    } else {
        let p1 = spec_skip_trivia(s, end);
        match spec_expect(s, p1, '(') {
            None => None,
            Some(p2) => spec_settings_fields(s, p2, None, None),
        }
    }
}

/// The view of an optional collected reviewing-role block.
pub open spec fn spec_opt_rv(v: Option<ReviewerSettings>) -> Option<ReviewerSettingsView> {
    match v {
        Some(x) => Some(x@),
        None => None,
    }
}

/// The view of an optional collected owner-role block.
pub open spec fn spec_opt_ow(v: Option<OwnerSettings>) -> Option<OwnerSettingsView> {
    match v {
        Some(x) => Some(x@),
        None => None,
    }
}

/// Parses a settings document: the `V1` envelope with its two role blocks,
/// in either order, each exactly once, and nothing but trivia around them.
/// An input outside the subset yields nothing.
pub fn parse_settings(s: &str) -> (r: Option<Settings>)
    ensures
        (r is Some) == (spec_parse_settings(s@) is Some),
        r matches Some(settings) ==> (spec_parse_settings(s@) matches Some(view) && settings@
            == view),
{
    let len = s.unicode_len();
    let p = skip_trivia(s, len, 0);
    let end = ident_end(s, len, p);
    if end == p {
        return None;
    }
    let tag = s.substring_char(p, end);
    if !str_eq(tag, "V1") {
        return None;
    }
    let p = skip_trivia(s, len, end);
    let mut p = match expect_char(s, len, p, '(') {
        Some(p) => p,
        None => {
            return None;
        },
    };
    let mut as_reviewer: Option<ReviewerSettings> = None;
    let mut as_owner: Option<OwnerSettings> = None;
    loop
        invariant
            len == s@.len(),
            p <= len,
            spec_parse_settings(s@) == spec_settings_fields(
                s@,
                p as int,
                spec_opt_rv(as_reviewer),
                spec_opt_ow(as_owner),
            ),
        decreases len - p,
    {
        let ghost entry = p as int;
        p = skip_trivia(s, len, p);
        if let Some(after) = expect_char(s, len, p, ')') {
            let p = skip_trivia(s, len, after);
            if p != len {
                return None;
            }
            return match (as_reviewer, as_owner) {
                (Some(as_reviewer), Some(as_owner)) => {
                    let settings = Settings::V1 { as_reviewer, as_owner };
                    proof {
                        assert(settings@ =~= spec_parse_settings(s@)->0);
                    }
                    Some(settings)
                },
                _ => None,
            };
        }
        let end = ident_end(s, len, p);
        if end == p {
            return None;
        }
        let field = s.substring_char(p, end);
        let after_colon = {
            let q = skip_trivia(s, len, end);
            match expect_char(s, len, q, ':') {
                Some(q) => skip_trivia(s, len, q),
                None => {
                    return None;
                },
            }
        };
        if str_eq(field, "as_reviewer") {
            if as_reviewer.is_some() {
                return None;
            }
            match parse_reviewer_block(s, len, after_colon) {
                Some((value, after)) => {
                    as_reviewer = Some(value);
                    p = after;
                },
                None => {
                    return None;
                },
            }
        } else if str_eq(field, "as_owner") {
            if as_owner.is_some() {
                return None;
            }
            match parse_owner_block(s, len, after_colon) {
                Some((value, after)) => {
                    as_owner = Some(value);
                    p = after;
                },
                None => {
                    return None;
                },
            }
        } else {
            return None;
        }
        p = skip_trivia(s, len, p);
        if let Some(after) = expect_char(s, len, p, ',') {
            p = after;
        }
        proof {
            assert(entry < p as int <= s@.len());
        }
    }
}

} // verus!
