//! The well-formedness check: whether the INI parser accepts a text, and what
//! it says where it does not.

use crate::text::{find_char, first_index, lines, trim, trim_span, Span, TextIndex};
use ini::configparser::ini::Ini;
use vstd::prelude::*;
use vstd::string::*;

verus! {

/// The parser of the `configparser` crate, with whatever it has read.
#[verifier::external_type_specification]
#[verifier::external_body]
pub struct ExIni(Ini);

/// The error with which a fresh `Ini` refuses to read `input`, or `None`
/// where it reads it.
pub uninterp spec fn ini_read_failure(input: Seq<char>) -> Option<Seq<char>>;

/// Where the comment of `line` begins: at its first `;` or `#`, or at its end
/// where it has neither.
pub open spec fn comment_start(line: Seq<char>) -> int {
    if first_index(line, ';') < first_index(line, '#') {
        first_index(line, ';')
    } else {
        first_index(line, '#')
    }
}

/// The part of `line` before its comment.
pub open spec fn code_of(line: Seq<char>) -> Seq<char> {
    line.take(comment_start(line))
}

/// Before its comment the line holds both brackets, and every `]` stands
/// before the first `[`. The parser has no answer for such a line.
pub open spec fn brackets_reversed(line: Seq<char>) -> bool {
    let code = code_of(line);
    let open = first_index(code, '[');
    &&& open < code.len()
    &&& code.take(open).contains(']')
    &&& !code.skip(open + 1).contains(']')
}

/// The parser refuses the line with an error. Before its comment the line
/// holds `[` and no `]`; or it holds no `[`, and nothing but white space
/// stands before its first `=`.
pub open spec fn line_is_refused(line: Seq<char>) -> bool {
    let code = code_of(line);
    if code.contains('[') {
        !code.contains(']')
    } else {
        code.contains('=') && trim(code.take(first_index(code, '='))).len() == 0
    }
}

/// The parser, which reads line by line and stops at the first line that it
/// refuses, comes to a line with reversed brackets.
pub open spec fn has_reversed_brackets(text: Seq<char>) -> bool {
    exists|i: int|
        {
            &&& 0 <= i < lines(text).len()
            &&& brackets_reversed(#[trigger] lines(text)[i])
            &&& forall|j: int| 0 <= j < i ==> !line_is_refused(#[trigger] lines(text)[j])
        }
}

/// The parser refuses some line of `text`.
pub open spec fn has_refused_line(text: Seq<char>) -> bool {
    exists|i: int| 0 <= i < lines(text).len() && line_is_refused(#[trigger] lines(text)[i])
}

/// A well-formed text: the parser refuses none of its lines and comes to
/// none with reversed brackets.
pub open spec fn is_well_formed(text: Seq<char>) -> bool {
    !has_refused_line(text) && !has_reversed_brackets(text)
}

/// What is reported for a text with reversed brackets.
pub open spec fn reversed_brackets_message() -> Seq<char> {
    "Found closing bracket before opening bracket"@
}

/// Why `text` is not well-formed, or `None` where it is: the parser's error,
/// or [`reversed_brackets_message`] for a text that the parser cannot be
/// given, because it would come to a line with reversed brackets.
pub open spec fn parse_failure(text: Seq<char>) -> Option<Seq<char>> {
    if has_reversed_brackets(text) {
        Some(reversed_brackets_message())
    } else {
        ini_read_failure(text)
    }
}

/// Makes a parser with `Ini::new` and has it read `content` with `Ini::read`.
/// The result is the parser where `read` returned `Ok`, else the error string
/// that `read` returned, which is a function of the text alone. `read` goes
/// through the lines in order and returns at the first error. It has two
/// errors, both told by [`line_is_refused`]: a `[` without a `]`, and an `=`
/// with no key before it. So it returns `Ok` exactly where no line is
/// refused. It slices a line between its first `[` and its last `]` and
/// panics where the last `]` comes first: the texts in which it comes to such
/// a line are left out.
#[verifier::external_body]
fn read_ini(content: &str) -> (outcome: Result<Ini, String>)
    requires
        !has_reversed_brackets(content@),
    ensures
        outcome is Ok <==> ini_read_failure(content@) is None,
        outcome matches Err(why) ==> ini_read_failure(content@) == Some(why@),
        outcome is Ok <==> !has_refused_line(content@),
{
    let mut ini = Ini::new();
    match ini.read(content.to_string()) {
        Ok(_) => Ok(ini),
        Err(why) => Err(why),
    }
}

/// Bounds of the part of `line` before its comment.
pub fn code_span(chars: &Vec<char>, line: Span) -> (code: Span)
    requires
        line.within(chars@.len()),
    ensures
        code.within(chars@.len()),
        code.of(chars@) == code_of(line.of(chars@)),
{
    let semicolon: usize = find_char(chars, line, ';');
    let hash: usize = find_char(chars, line, '#');
    let stop: usize = if semicolon < hash {
        semicolon
    } else {
        hash
    };
    let code = Span { start: line.start, end: stop };
    proof {
        assert(code.of(chars@) =~= code_of(line.of(chars@)));
    }
    code
}

/// Executable form of [`brackets_reversed`].
pub fn line_brackets_reversed(chars: &Vec<char>, line: Span) -> (b: bool)
    requires
        line.within(chars@.len()),
    ensures
        b == brackets_reversed(line.of(chars@)),
{
    let code = code_span(chars, line);
    let open: usize = find_char(chars, code, '[');
    if open == code.end {
        return false;
    }
    let head = Span { start: code.start, end: open };
    let tail = Span { start: open + 1, end: code.end };
    proof {
        let k = open - code.start;
        assert(head.of(chars@) =~= code.of(chars@).take(k));
        assert(tail.of(chars@) =~= code.of(chars@).skip(k + 1));
    }
    let early: usize = find_char(chars, head, ']');
    let late: usize = find_char(chars, tail, ']');
    early < head.end && late == tail.end
}

/// Executable form of [`line_is_refused`].
pub fn line_refused(chars: &Vec<char>, line: Span) -> (b: bool)
    requires
        line.within(chars@.len()),
    ensures
        b == line_is_refused(line.of(chars@)),
{
    let code = code_span(chars, line);
    if find_char(chars, code, '[') < code.end {
        find_char(chars, code, ']') == code.end
    } else {
        let eq: usize = find_char(chars, code, '=');
        if eq < code.end {
            let left = Span { start: code.start, end: eq };
            proof {
                assert(left.of(chars@) =~= code.of(chars@).take(eq - code.start));
            }
            let key = trim_span(chars, left);
            key.start == key.end
        } else {
            false
        }
    }
}

/// Executable form of [`has_reversed_brackets`].
pub fn text_has_reversed_brackets(content: &str) -> (b: bool)
    ensures
        b == has_reversed_brackets(content@),
{
    let index = TextIndex::new(content);
    let count: usize = index.line_count();
    let ghost all = lines(content@);
    let mut i: usize = 0;
    while i < count
        invariant
            index.wf(),
            index.text@ == content@,
            all == lines(content@),
            count == all.len(),
            i <= count,
            forall|j: int| 0 <= j < i ==> !brackets_reversed(#[trigger] all[j]),
            forall|j: int| 0 <= j < i ==> !line_is_refused(#[trigger] all[j]),
        decreases count - i,
    {
        let line = index.line_span(i);
        if line_brackets_reversed(&index.chars, line) {
            proof {
                assert(brackets_reversed(all[i as int]));
            }
            return true;
        }
        if line_refused(&index.chars, line) {
            proof {
                assert(line_is_refused(all[i as int]));
            }
            return false;
        }
        i = i + 1;
    }
    false
}

/// Checks `content` for well-formedness. `Ok`, for a well-formed text,
/// carries the parser that has read it; `Err` carries the reason given by
/// [`parse_failure`].
pub fn parse_unit_file(content: &str) -> (outcome: Result<Ini, String>)
    ensures
        outcome is Ok <==> is_well_formed(content@),
        outcome is Ok <==> parse_failure(content@) is None,
        outcome matches Err(why) ==> parse_failure(content@) == Some(why@),
{
    if text_has_reversed_brackets(content) {
        Err(String::from_str("Found closing bracket before opening bracket"))
    } else {
        read_ini(content)
    }
}

} // verus!
