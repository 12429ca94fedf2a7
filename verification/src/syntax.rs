//! What a single line of a unit description is: a section header, an entry, a
//! comment, or a header that is still being typed.

use crate::text::{find_char, first_index, trim, trim_span, Span};
use vstd::prelude::*;

verus! {

/// `s` is not empty and begins with `c`.
pub open spec fn starts_with(s: Seq<char>, c: char) -> bool {
    s.len() > 0 && s[0] == c
}

/// `s` is not empty and ends with `c`.
pub open spec fn ends_with(s: Seq<char>, c: char) -> bool {
    s.len() > 0 && s.last() == c
}

/// A header line: trimmed, it begins with `[` and ends with `]`.
pub open spec fn is_header(line: Seq<char>) -> bool {
    starts_with(trim(line), '[') && ends_with(trim(line), ']')
}

/// What stands between the brackets of a header line, as it is written.
pub open spec fn header_name(line: Seq<char>) -> Seq<char> {
    trim(line).subrange(1, trim(line).len() - 1)
}

/// The name of the section that a header line opens: what stands between its
/// brackets, trimmed.
pub open spec fn section_name(line: Seq<char>) -> Seq<char> {
    trim(header_name(line))
}

/// A header that is being typed: trimmed, the line begins with `[`, and no
/// `]` stands anywhere on it.
pub open spec fn is_open_header(line: Seq<char>) -> bool {
    starts_with(trim(line), '[') && !line.contains(']')
}

/// A comment line: trimmed, it begins with `#`.
pub open spec fn is_comment(line: Seq<char>) -> bool {
    starts_with(trim(line), '#')
}

/// The key of a line that holds `=`: what stands before the first `=`, trimmed.
pub open spec fn entry_key(line: Seq<char>) -> Seq<char> {
    trim(line.take(first_index(line, '=')))
}

/// The value of a line that holds `=`: what stands after the first `=`, trimmed.
pub open spec fn entry_value(line: Seq<char>) -> Seq<char> {
    trim(line.skip(first_index(line, '=') + 1))
}

/// An entry line as the rule pass sees it: it holds `=`, and trimmed it
/// begins with neither `#` nor `[`.
pub open spec fn is_entry(line: Seq<char>) -> bool {
    line.contains('=') && !is_comment(line) && !starts_with(trim(line), '[')
}

/// Whether the piece that `span` covers begins with `c`.
pub fn span_starts_with(chars: &Vec<char>, span: Span, c: char) -> (b: bool)
    requires
        span.within(chars@.len()),
    ensures
        b == starts_with(span.of(chars@), c),
{
    span.start < span.end && chars[span.start] == c
}

/// Whether the piece that `span` covers ends with `c`.
pub fn span_ends_with(chars: &Vec<char>, span: Span, c: char) -> (b: bool)
    requires
        span.within(chars@.len()),
    ensures
        b == ends_with(span.of(chars@), c),
{
    span.start < span.end && chars[span.end - 1] == c
}

/// Bounds of what stands between the brackets where `line` is a header line.
pub fn header_span(chars: &Vec<char>, line: Span) -> (name: Option<Span>)
    requires
        line.within(chars@.len()),
    ensures
        name is Some <==> is_header(line.of(chars@)),
        name matches Some(n) ==> n.within(chars@.len()) && n.of(chars@) == header_name(
            line.of(chars@),
        ),
{
    let t = trim_span(chars, line);
    if span_starts_with(chars, t, '[') && span_ends_with(chars, t, ']') {
        let n = Span { start: t.start + 1, end: t.end - 1 };
        proof {
            assert(n.of(chars@) =~= t.of(chars@).subrange(1, t.of(chars@).len() - 1));
        }
        Some(n)
    } else {
        None
    }
}

/// Bounds of the name of the section that `line` opens, where it is a header
/// line.
pub fn section_name_span(chars: &Vec<char>, line: Span) -> (name: Option<Span>)
    requires
        line.within(chars@.len()),
    ensures
        name is Some <==> is_header(line.of(chars@)),
        name matches Some(n) ==> n.within(chars@.len()) && n.of(chars@) == section_name(
            line.of(chars@),
        ),
{
    match header_span(chars, line) {
        Some(inner) => Some(trim_span(chars, inner)),
        None => None,
    }
}

/// Bounds of the trimmed key and value where `line` holds `=`.
pub fn entry_spans(chars: &Vec<char>, line: Span) -> (parts: Option<(Span, Span)>)
    requires
        line.within(chars@.len()),
    ensures
        parts is Some <==> line.of(chars@).contains('='),
        parts matches Some((key, value)) ==> {
            &&& key.within(chars@.len())
            &&& value.within(chars@.len())
            &&& key.of(chars@) == entry_key(line.of(chars@))
            &&& value.of(chars@) == entry_value(line.of(chars@))
        },
{
    let eq: usize = find_char(chars, line, '=');
    if eq < line.end {
        let left = Span { start: line.start, end: eq };
        let right = Span { start: eq + 1, end: line.end };
        proof {
            let k = eq - line.start;
            assert(left.of(chars@) =~= line.of(chars@).take(k));
            assert(right.of(chars@) =~= line.of(chars@).skip(k + 1));
        }
        let key = trim_span(chars, left);
        let value = trim_span(chars, right);
        Some((key, value))
    } else {
        None
    }
}

} // verus!
