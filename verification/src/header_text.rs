//! Headers written as text, one to a line: `Accept: */*`.
//!
//! A line is cut at its first colon. What stands before the colon is the name
//! and what stands behind it the value, each without the white space around
//! it. A line without a colon says nothing and is passed over.

use crate::request::text_fields;
use crate::transport::{
    empty_headers, header_entries, header_name, header_value, is_value_text, name_count,
    parsed_header_name, parsed_header_value, put_header, HEADER_ROOM,
};
use reqwest::header::{HeaderMap, HeaderName, HeaderValue};
use vstd::prelude::*;
use vstd::string::*;

verus! {

/// Whether a character is white space, as Unicode's `White_Space` has it.
pub open spec fn is_space(c: char) -> bool {
    let u = c as u32;
    (0x09 <= u <= 0x0D) || u == 0x20 || u == 0x85 || u == 0xA0 || u == 0x1680 || (0x2000 <= u
        <= 0x200A) || u == 0x2028 || u == 0x2029 || u == 0x202F || u == 0x205F || u == 0x3000
}

/// Where `c` stands first in `s`, or the length of `s` where it stands nowhere.
pub open spec fn first_index(s: Seq<char>, c: char) -> int
    decreases s.len(),
{
    if s.len() == 0 || s[0] == c {
        0
    } else {
        1 + first_index(s.drop_first(), c)
    }
}

/// `s` without the white space at its start.
pub open spec fn trim_start(s: Seq<char>) -> Seq<char>
    decreases s.len(),
{
    if s.len() > 0 && is_space(s[0]) {
        trim_start(s.drop_first())
    } else {
        s
    }
}

/// `s` without the white space at its end.
pub open spec fn trim_end(s: Seq<char>) -> Seq<char>
    decreases s.len(),
{
    if s.len() > 0 && is_space(s.last()) {
        trim_end(s.drop_last())
    } else {
        s
    }
}

/// `s` without the white space around it.
pub open spec fn trimmed(s: Seq<char>) -> Seq<char> {
    trim_end(trim_start(s))
}

/// The header that a line holds: name and value, or nothing where the line
/// has no colon.
pub open spec fn header_of(line: Seq<char>) -> Option<(Seq<char>, Seq<char>)> {
    let colon = first_index(line, ':');
    if colon == line.len() {
        None
    } else {
        Some((trimmed(line.take(colon)), trimmed(line.skip(colon + 1))))
    }
}

/// The headers that a text holds, line by line, in the order of the lines.
pub open spec fn header_lines(text: Seq<char>) -> Seq<(Seq<char>, Seq<char>)>
    decreases text.len(),
{
    let end = first_index(text, '\n');
    let head = match header_of(text.take(end)) {
        Some(header) => seq![header],
        None => Seq::empty(),
    };
    if 0 <= end < text.len() {
        head + header_lines(text.skip(end + 1))
    } else {
        head
    }
}

proof fn lemma_first_index(s: Seq<char>, c: char, at: int)
    requires
        0 <= at <= s.len(),
        forall|k: int| 0 <= k < at ==> s[k] != c,
        at == s.len() || s[at] == c,
    ensures
        first_index(s, c) == at,
    decreases at,
{
    if at > 0 {
        let rest = s.drop_first();
        assert forall|k: int| 0 <= k < at - 1 implies rest[k] != c by {
            assert(rest[k] == s[k + 1]);
        }
        lemma_first_index(rest, c, at - 1);
    }
}

proof fn lemma_trim_start(s: Seq<char>, at: int)
    requires
        0 <= at <= s.len(),
        forall|k: int| 0 <= k < at ==> is_space(s[k]),
        at == s.len() || !is_space(s[at]),
    ensures
        trim_start(s) == s.skip(at),
    decreases at,
{
    if at > 0 {
        let rest = s.drop_first();
        assert forall|k: int| 0 <= k < at - 1 implies is_space(rest[k]) by {
            assert(rest[k] == s[k + 1]);
        }
        lemma_trim_start(rest, at - 1);
        assert(rest.skip(at - 1) =~= s.skip(at));
    } else {
        assert(s.skip(0) =~= s);
    }
}

proof fn lemma_trim_end(s: Seq<char>, at: int)
    requires
        0 <= at <= s.len(),
        forall|k: int| at <= k < s.len() ==> is_space(s[k]),
        at == 0 || !is_space(s[at - 1]),
    ensures
        trim_end(s) == s.take(at),
    decreases s.len() - at,
{
    if at < s.len() {
        let rest = s.drop_last();
        lemma_trim_end(rest, at);
        assert(rest.take(at) =~= s.take(at));
    } else {
        assert(s.take(at) =~= s);
    }
}

fn is_space_char(c: char) -> (space: bool)
    ensures
        space == is_space(c),
{
    let u: u32 = c as u32;
    (0x09 <= u && u <= 0x0D) || u == 0x20 || u == 0x85 || u == 0xA0 || u == 0x1680 || (0x2000 <= u
        && u <= 0x200A) || u == 0x2028 || u == 0x2029 || u == 0x202F || u == 0x205F || u == 0x3000
}

/// The characters of a text.
fn chars_of(text: &str) -> (chars: Vec<char>)
    ensures
        chars@ == text@,
{
    let mut chars: Vec<char> = Vec::new();
    for c in it: text.chars()
        invariant
            chars@ == it.seq().take(it.index() as int),
            it.seq() == text@,
    {
        chars.push(c);
    }
    chars
}

/// Where `c` stands first between `from` and `to`, or `to`.
fn find(chars: &Vec<char>, from: usize, to: usize, c: char) -> (at: usize)
    requires
        from <= to <= chars.len(),
    ensures
        from <= at <= to,
        at - from == first_index(chars@.subrange(from as int, to as int), c),
{
    let mut at = from;
    while at < to && chars[at] != c
        invariant
            from <= at <= to <= chars.len(),
            forall|k: int| from <= k < at ==> chars[k] != c,
        decreases to - at,
    {
        at = at + 1;
    }
    proof {
        lemma_first_index(chars@.subrange(from as int, to as int), c, at - from);
    }
    at
}

/// The bounds of what stands between `from` and `to` without the white space
/// around it.
fn trim(chars: &Vec<char>, from: usize, to: usize) -> (bounds: (usize, usize))
    requires
        from <= to <= chars.len(),
    ensures
        from <= bounds.0 <= bounds.1 <= to,
        chars@.subrange(bounds.0 as int, bounds.1 as int) == trimmed(
            chars@.subrange(from as int, to as int),
        ),
{
    let mut first = from;
    while first < to && is_space_char(chars[first])
        invariant
            from <= first <= to <= chars.len(),
            forall|k: int| from <= k < first ==> is_space(chars[k]),
        decreases to - first,
    {
        first = first + 1;
    }
    let mut last = to;
    while first < last && is_space_char(chars[last - 1])
        invariant
            first <= last <= to <= chars.len(),
            forall|k: int| last <= k < to ==> is_space(chars[k]),
        decreases last - first,
    {
        last = last - 1;
    }
    proof {
        let s = chars@.subrange(from as int, to as int);
        lemma_trim_start(s, first - from);
        let t = s.skip(first - from);
        assert(t =~= chars@.subrange(first as int, to as int));
        lemma_trim_end(t, last - first);
        assert(t.take(last - first) =~= chars@.subrange(first as int, last as int));
    }
    (first, last)
}

/// The headers that `text` holds, line by line.
pub fn parse_header_lines(text: &str) -> (headers: Vec<(String, String)>)
    ensures
        text_fields(headers@) == header_lines(text@),
{
    let chars = chars_of(text);
    let n = chars.len();
    let mut headers: Vec<(String, String)> = Vec::new();
    let mut start: usize = 0;
    let mut done = false;
    proof {
        assert(chars@.skip(0) =~= chars@);
        assert(text_fields(headers@) + header_lines(chars@) =~= header_lines(chars@));
    }
    while !done
        invariant
            n == chars.len(),
            chars@ == text@,
            start <= n,
            !done ==> text_fields(headers@) + header_lines(chars@.skip(start as int))
                == header_lines(chars@),
            done ==> text_fields(headers@) == header_lines(chars@),
        decreases n - start + (if done { 0int } else { 1int }),
    {
        let end = find(&chars, start, n, '\n');
        let colon = find(&chars, start, end, ':');
        let ghost rest = chars@.skip(start as int);
        let ghost before = text_fields(headers@);
        proof {
            assert(rest =~= chars@.subrange(start as int, n as int));
            assert(rest.take(end - start) =~= chars@.subrange(start as int, end as int));
        }
        if colon < end {
            let (name_from, name_to) = trim(&chars, start, colon);
            let (value_from, value_to) = trim(&chars, colon + 1, end);
            let name = text.substring_char(name_from, name_to).to_owned();
            let value = text.substring_char(value_from, value_to).to_owned();
            proof {
                let line = rest.take(end - start);
                assert(line.take(colon - start) =~= chars@.subrange(start as int, colon as int));
                assert(line.skip(colon - start + 1) =~= chars@.subrange(
                    colon + 1,
                    end as int,
                ));
                assert(header_of(line) == Some((name@, value@)));
            }
            headers.push((name, value));
            proof {
                assert(text_fields(headers@) =~= before.push((name@, value@)));
            }
        }
        proof {
            let line = rest.take(end - start);
            let head = match header_of(line) {
                Some(header) => seq![header],
                None => Seq::empty(),
            };
            assert(text_fields(headers@) =~= before + head);
            if end < n {
                assert(rest.skip(end - start + 1) =~= chars@.skip(end + 1));
                assert(header_lines(rest) == head + header_lines(chars@.skip(end + 1)));
                assert(before + (head + header_lines(chars@.skip(end + 1))) =~= (before + head)
                    + header_lines(chars@.skip(end + 1)));
            } else {
                assert(header_lines(rest) == head);
            }
        }
        if end < n {
            start = end + 1;
        } else {
            done = true;
        }
    }
    headers
}

/// The headers that a map holds once each of `lines` was put into it in turn,
/// a later line in place of an earlier one of the same name; or nothing, where
/// a name or a value is none that the transport takes.
pub open spec fn collected(lines: Seq<(Seq<char>, Seq<char>)>) -> Option<
    Map<HeaderName, HeaderValue>,
>
    decreases lines.len(),
{
    if lines.len() == 0 {
        Some(Map::empty())
    } else {
        match (
            collected(lines.drop_last()),
            parsed_header_name(lines.last().0),
            parsed_header_value(lines.last().1),
        ) {
            (Some(entries), Some(name), Some(value)) => Some(entries.insert(name, value)),
            _ => None,
        }
    }
}

/// Whether the transport takes each of `lines`: its name stands for a header
/// name, and each byte of its value may stand in a header value.
pub open spec fn taken(lines: Seq<(Seq<char>, Seq<char>)>) -> bool {
    forall|i: int|
        #![trigger lines[i]]
        0 <= i < lines.len() ==> parsed_header_name(lines[i].0) is Some && is_value_text(
            lines[i].1,
        )
}

/// The header map that a text describes, one header to a line.
///
/// There is no map where a line holds a name or a value that the transport
/// does not take: [`taken`] says which it takes. The transport also bounds
/// the size of a map, and there is no map where it refuses a header on that
/// account; it refuses none of up to [`HEADER_ROOM`] headers.
pub fn hdr(text: &str) -> (headers: Option<HeaderMap>)
    ensures
        !taken(header_lines(text@)) ==> headers is None,
        taken(header_lines(text@)) && header_lines(text@).len() <= HEADER_ROOM
            ==> headers is Some,
        headers matches Some(map) ==> collected(header_lines(text@)) == Some(header_entries(map)),
        collected(header_lines(text@)) is None ==> headers is None,
{
    let lines = parse_header_lines(text);
    let mut map = empty_headers();
    assert(header_entries(map) =~= Map::<HeaderName, HeaderValue>::empty());
    let mut i: usize = 0;
    while i < lines.len()
        invariant
            i <= lines.len(),
            collected(text_fields(lines@).take(i as int)) == Some(header_entries(map)),
            name_count(map) <= i,
            text_fields(lines@) == header_lines(text@),
            forall|k: int|
                #![trigger text_fields(lines@)[k]]
                0 <= k < i ==> parsed_header_name(text_fields(lines@)[k].0) is Some
                    && is_value_text(text_fields(lines@)[k].1),
        decreases lines.len() - i,
    {
        proof {
            let upto = text_fields(lines@).take(i + 1);
            assert(upto.drop_last() =~= text_fields(lines@).take(i as int));
            assert(upto.last() == (lines[i as int].0@, lines[i as int].1@));
        }
        let name = match header_name(lines[i].0.as_str()) {
            Some(name) => name,
            None => {
                proof {
                    lemma_collected_prefix(text_fields(lines@), i + 1);
                    assert(parsed_header_name(text_fields(lines@)[i as int].0) is None);
                }
                return None;
            },
        };
        let value = match header_value(lines[i].1.as_str()) {
            Some(value) => value,
            None => {
                proof {
                    lemma_collected_prefix(text_fields(lines@), i + 1);
                    assert(!is_value_text(text_fields(lines@)[i as int].1));
                }
                return None;
            },
        };
        assert(is_value_text(text_fields(lines@)[i as int].1));
        if !put_header(&mut map, name, value) {
            return None;
        }
        i = i + 1;
    }
    assert(text_fields(lines@).take(i as int) =~= text_fields(lines@));
    Some(map)
}

/// Where the first lines cannot be collected, neither can all of them.
proof fn lemma_collected_prefix(lines: Seq<(Seq<char>, Seq<char>)>, n: int)
    requires
        0 <= n <= lines.len(),
        collected(lines.take(n)) is None,
    ensures
        collected(lines) is None,
    decreases lines.len(),
{
    if n < lines.len() {
        assert(lines.drop_last().take(n) =~= lines.take(n));
        lemma_collected_prefix(lines.drop_last(), n);
    } else {
        assert(lines.take(n) =~= lines);
    }
}

} // verus!
