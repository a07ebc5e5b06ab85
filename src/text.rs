//! Finding the event payload in a free-text log line.

use vstd::prelude::*;

verus! {

/// Whether a character has Unicode's White_Space property.
pub uninterp spec fn white_space(c: char) -> bool;

/// The text without its leading white space.
pub open spec fn trim_start_of(s: Seq<char>) -> Seq<char>
    decreases s.len(),
{
    if s.len() > 0 && white_space(s[0]) {
        trim_start_of(s.drop_first())
    } else {
        s
    }
}

/// The text without its trailing white space.
pub open spec fn trim_end_of(s: Seq<char>) -> Seq<char>
    decreases s.len(),
{
    if s.len() > 0 && white_space(s.last()) {
        trim_end_of(s.drop_last())
    } else {
        s
    }
}

/// The text without white space at either end.
pub open spec fn trimmed(s: Seq<char>) -> Seq<char> {
    trim_end_of(trim_start_of(s))
}

/// Relies on `str::trim`: it removes the leading and trailing characters
/// that have Unicode's White_Space property, and nothing else.
#[verifier::external_body]
fn trim_str<'a>(s: &'a str) -> (r: &'a str)
    ensures
        r@ == trimmed(s@),
        r@.len() > 0 ==> !white_space(r@[0]) && !white_space(r@.last()),
{
    s.trim()
}

/// The marker that opens a log line holding an event.
pub const EVENT_JSON_MARKER: &'static str = "EVENT_JSON:";

/// The marker's characters.
pub open spec fn event_marker() -> Seq<char> {
    seq!['E', 'V', 'E', 'N', 'T', '_', 'J', 'S', 'O', 'N', ':']
}

/// Whether `s` begins with `p`.
pub open spec fn has_prefix(s: Seq<char>, p: Seq<char>) -> bool {
    p.len() <= s.len() && s.subrange(0, p.len() as int) == p
}

/// Whether the trimmed line begins with the marker.
pub open spec fn is_marked(line: Seq<char>) -> bool {
    has_prefix(trimmed(line), event_marker())
}

/// The trimmed text after the marker of a trimmed line that begins with it;
/// nothing for any other line.
pub open spec fn payload_of(line: Seq<char>) -> Option<Seq<char>> {
    let t = trimmed(line);
    if has_prefix(t, event_marker()) {
        Some(trimmed(t.subrange(event_marker().len() as int, t.len() as int)))
    } else {
        None
    }
}

/// Whether `s` begins with `p`, compared character by character.
fn starts_with(s: &str, p: &str) -> (r: bool)
    ensures
        r == has_prefix(s@, p@),
{
    let n = s.unicode_len();
    let m = p.unicode_len();
    if m > n {
        return false;
    }
    let mut i: usize = 0;
    while i < m
        invariant
            m == p@.len(),
            n == s@.len(),
            m <= n,
            i <= m,
            s@.subrange(0, i as int) == p@.subrange(0, i as int),
        decreases m - i,
    {
        if s.get_char(i) != p.get_char(i) {
            assert(s@.subrange(0, m as int)[i as int] != p@[i as int]);
            return false;
        }
        assert(s@.subrange(0, i + 1) =~= p@.subrange(0, i + 1));
        i = i + 1;
    }
    assert(p@.subrange(0, m as int) =~= p@);
    true
}

/// The event payload of a log line: trim the line; if it begins with the
/// marker, the trimmed rest of it.
pub fn event_payload(line: &str) -> (r: Option<String>)
    ensures
        match r {
            Some(p) => payload_of(line@) == Some(p@),
            None => payload_of(line@) is None,
        },
{
    let t = trim_str(line);
    let marker: &str = EVENT_JSON_MARKER;
    proof {
        reveal_strlit("EVENT_JSON:");
    }
    assert(marker@ =~= event_marker());
    if !starts_with(t, marker) {
        return None;
    }
    let m = marker.unicode_len();
    let n = t.unicode_len();
    let rest = t.substring_char(m, n);
    let p = trim_str(rest);
    Some(p.to_owned())
}

} // verus!
