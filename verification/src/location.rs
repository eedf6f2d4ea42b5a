//! Waypoint identifiers and the location derived from them.
//!
//! A waypoint identifier such as `X1-AB12-C3` is a sequence of segments
//! separated by `-`. Its first two segments, joined by the separator, name
//! the system the waypoint lies in.

use vstd::prelude::*;
use vstd::string::*;

verus! {

/// The character that separates the segments of an identifier.
pub const SEPARATOR: char = '-';

/// Length of the longest prefix of `s` that holds no separator.
pub open spec fn head_len(s: Seq<char>) -> nat
    decreases s.len(),
{
    if s.len() == 0 || s[0] == SEPARATOR {
        0
    } else {
        1 + head_len(s.drop_first())
    }
}

/// The segments of `s`: the pieces between its separators, in order.
/// A sequence with `n` separators has `n + 1` segments, some possibly empty.
pub open spec fn segments(s: Seq<char>) -> Seq<Seq<char>>
    decreases s.len(),
{
    let k = head_len(s) as int;
    if k >= s.len() {
        seq![s]
    } else {
        seq![s.take(k)] + segments(s.skip(k + 1))
    }
}

/// An identifier names a location when it has at least two segments.
pub open spec fn well_formed(id: Seq<char>) -> bool {
    segments(id).len() >= 2
}

/// The system that a well-formed identifier lies in: its first two segments,
/// joined by the separator.
pub open spec fn system_of(id: Seq<char>) -> Seq<char> {
    segments(id)[0] + seq![SEPARATOR] + segments(id)[1]
}

/// The location that a well-formed identifier names.
pub open spec fn location_of(id: Seq<char>) -> LocationView {
    LocationView { system: system_of(id), waypoint: id }
}

/// The segments of `parts`, written one after the other with a separator
/// between neighbours.
pub open spec fn joined(parts: Seq<Seq<char>>) -> Seq<char>
    decreases parts.len(),
{
    if parts.len() == 0 {
        Seq::empty()
    } else if parts.len() == 1 {
        parts[0]
    } else {
        parts[0] + seq![SEPARATOR] + joined(parts.drop_first())
    }
}

/// A system identifier together with the full identifier of a waypoint in it.
#[derive(Debug, Clone, PartialEq, Eq)]
pub struct Location {
    pub system: String,
    pub waypoint: String,
}

/// What a [`Location`] holds, as character sequences.
pub ghost struct LocationView {
    pub system: Seq<char>,
    pub waypoint: Seq<char>,
}

impl View for Location {
    type V = LocationView;

    open spec fn view(&self) -> LocationView {
        LocationView { system: self.system@, waypoint: self.waypoint@ }
    }
}

/// The identifier has fewer than two segments, so it names no location.
#[derive(Debug, Clone, Copy, PartialEq, Eq)]
pub struct InvalidLocation;

/// `head_len(s)` is the index of the first separator of `s`, or its length
/// where it has none.
pub proof fn lemma_head_len(s: Seq<char>)
    ensures
        head_len(s) <= s.len(),
        forall|i: int| 0 <= i < head_len(s) ==> s[i] != SEPARATOR,
        head_len(s) < s.len() ==> s[head_len(s) as int] == SEPARATOR,
    decreases s.len(),
{
    if s.len() == 0 || s[0] == SEPARATOR {
    } else {
        let t = s.drop_first();
        lemma_head_len(t);
        assert forall|i: int| 0 <= i < head_len(s) implies s[i] != SEPARATOR by {
            if i > 0 {
                assert(s[i] == t[i - 1]);
            }
        }
    }
}

/// A position `k` that no separator precedes is the head length as soon as
/// the sequence ends there or holds a separator there.
pub proof fn lemma_head_len_is(s: Seq<char>, k: int)
    requires
        0 <= k <= s.len(),
        forall|i: int| 0 <= i < k ==> s[i] != SEPARATOR,
        k < s.len() ==> s[k] == SEPARATOR,
    ensures
        head_len(s) == k,
{
    lemma_head_len(s);
}

/// No segment holds a separator.
pub proof fn lemma_segments_separator_free(s: Seq<char>)
    ensures
        segments(s).len() >= 1,
        forall|i: int, j: int|
            0 <= i < segments(s).len() && 0 <= j < segments(s)[i].len()
                ==> #[trigger] segments(s)[i][j] != SEPARATOR,
    decreases s.len(),
{
    lemma_head_len(s);
    let k = head_len(s) as int;
    if k < s.len() {
        let rest = s.skip(k + 1);
        lemma_segments_separator_free(rest);
    }
}

/// Joining the segments of a sequence gives the sequence back: splitting
/// loses nothing and adds nothing.
pub proof fn law_join_undoes_split(s: Seq<char>)
    ensures
        joined(segments(s)) == s,
    decreases s.len(),
{
    lemma_head_len(s);
    let k = head_len(s) as int;
    if k < s.len() {
        let rest = s.skip(k + 1);
        law_join_undoes_split(rest);
        lemma_segments_separator_free(rest);
        assert(segments(s).drop_first() =~= segments(rest));
    }
}

/// Separator-free parts are the segments of what they join to: a sequence
/// splits in one way only.
pub proof fn law_split_undoes_join(parts: Seq<Seq<char>>)
    requires
        parts.len() >= 1,
        forall|i: int, j: int|
            0 <= i < parts.len() && 0 <= j < parts[i].len() ==> #[trigger] parts[i][j]
                != SEPARATOR,
    ensures
        segments(joined(parts)) == parts,
    decreases parts.len(),
{
    let first = parts[0];
    if parts.len() == 1 {
        lemma_head_len_is(first, first.len() as int);
    } else {
        let others = parts.drop_first();
        law_split_undoes_join(others);
        let whole = joined(parts);
        let k = first.len() as int;
        lemma_head_len_is(whole, k);
        assert(whole.take(k) =~= first);
        assert(whole.skip(k + 1) =~= joined(others));
    }
}

/// An identifier names a location exactly when it holds a separator.
pub proof fn law_well_formed_iff_separator(id: Seq<char>)
    ensures
        well_formed(id) <==> id.contains(SEPARATOR),
{
    lemma_head_len(id);
    let k = head_len(id) as int;
    if k < id.len() {
        lemma_segments_separator_free(id.skip(k + 1));
    }
}

/// The system of a well-formed identifier is the part of it that comes
/// before its second separator, or all of it where it has only one.
proof fn lemma_system_is_prefix(id: Seq<char>)
    requires
        well_formed(id),
    ensures
        system_of(id).len() <= id.len(),
        system_of(id) == id.take(system_of(id).len() as int),
{
    lemma_head_len(id);
    let k = head_len(id) as int;
    let rest = id.skip(k + 1);
    lemma_head_len(rest);
    let m = head_len(rest) as int;
    assert(segments(rest)[0] =~= rest.take(m));
}

/// The system of a well-formed identifier is a prefix of it, is itself well
/// formed, and is its own system; and since a location keeps the identifier
/// as its waypoint, deriving a location from that waypoint gives the same
/// location again.
pub proof fn law_parse_idempotent(id: Seq<char>)
    requires
        well_formed(id),
    ensures
        system_of(id) == id.take(system_of(id).len() as int),
        well_formed(system_of(id)),
        system_of(system_of(id)) == system_of(id),
        location_of(location_of(id).waypoint) == location_of(id),
{
    let parts = segments(id);
    let pair = seq![parts[0], parts[1]];
    lemma_segments_separator_free(id);
    assert(joined(pair) =~= system_of(id)) by {
        assert(pair.drop_first() =~= seq![parts[1]]);
        assert(joined(seq![parts[1]]) == parts[1]);
    }
    law_split_undoes_join(pair);
    lemma_system_is_prefix(id);
}

/// Splits `text` at every separator.
pub fn split_segments(text: &str) -> (parts: Vec<String>)
    ensures
        parts.deep_view() == segments(text@),
{
    let total: usize = text.unicode_len();
    let mut parts: Vec<String> = Vec::new();
    let mut start: usize = 0;
    let mut at: usize = 0;
    assert(text@.skip(0) =~= text@);
    for c in it: text.chars()
        invariant
            it.seq() == text@,
            total == text@.len(),
            at == it.index(),
            start <= at <= total,
            forall|j: int| start <= j < at ==> text@[j] != SEPARATOR,
            segments(text@) == parts.deep_view() + segments(text@.skip(start as int)),
    {
        if c == SEPARATOR {
            let piece = String::from_str(text.substring_char(start, at));
            let ghost rest = text@.skip(start as int);
            parts.push(piece);
            proof {
                lemma_head_len_is(rest, at - start);
                assert(rest.take(at - start) =~= piece@);
                assert(rest.skip(at - start + 1) =~= text@.skip(at + 1));
            }
            start = at + 1;
        }
        at = at + 1;
    }
    let piece = String::from_str(text.substring_char(start, total));
    let ghost rest = text@.skip(start as int);
    parts.push(piece);
    proof {
        lemma_head_len_is(rest, total - start);
    }
    parts
}

/// Derives the location that a waypoint identifier names.
///
/// The system is the identifier's first two segments joined by the
/// separator; the waypoint is the identifier itself. An identifier with
/// fewer than two segments is rejected.
pub fn parse_waypoint(waypoint_string: String) -> (result: Result<Location, InvalidLocation>)
    ensures
        match result {
            Ok(location) => well_formed(waypoint_string@) && location@ == location_of(
                waypoint_string@,
            ),
            Err(_) => !well_formed(waypoint_string@),
        },
{
    let parts = split_segments(waypoint_string.as_str());
    if parts.len() < 2 {
        return Err(InvalidLocation);
    }
    let mut system = parts[0].clone();
    system.append("-");
    system.append(parts[1].as_str());
    proof {
        reveal_strlit("-");
        assert("-"@ =~= seq![SEPARATOR]);
    }
    Ok(Location { system, waypoint: waypoint_string })
}

} // verus!
