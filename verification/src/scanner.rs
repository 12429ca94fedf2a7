//! Which section a line belongs to, derived from the text on every query.

use crate::syntax::{is_header, section_name, section_name_span};
use crate::text::{lines, Span, TextIndex};
use vstd::prelude::*;
use vstd::string::*;

verus! {

/// The name of the last header line among `lines`, if there is one.
pub open spec fn last_header(lines: Seq<Seq<char>>) -> Option<Seq<char>>
    decreases lines.len(),
{
    if lines.len() == 0 {
        None
    } else if is_header(lines.last()) {
        Some(section_name(lines.last()))
    } else {
        last_header(lines.drop_last())
    }
}

/// The section that line `line` of `text` belongs to: the trimmed name of the
/// most recent header line at or before it. `None` where no header line precedes
/// it, and where the text has no line `line`, as in the empty text.
pub open spec fn section_at(text: Seq<char>, line: nat) -> Option<Seq<char>> {
    if line < lines(text).len() {
        last_header(lines(text).take(line as int + 1))
    } else {
        None
    }
}

/// Bounds of the name of the section that line `current_line` belongs to.
pub fn section_span(index: &TextIndex, current_line: usize) -> (name: Option<Span>)
    requires
        index.wf(),
    ensures
        name is Some <==> section_at(index.text@, current_line as nat) is Some,
        name matches Some(n) ==> n.within(index.chars@.len()) && Some(n.of(index.chars@))
            == section_at(index.text@, current_line as nat),
{
    let count: usize = index.line_count();
    if current_line >= count {
        return None;
    }
    let mut current: Option<Span> = None;
    let mut i: usize = 0;
    let ghost all = lines(index.text@);
    while i <= current_line
        invariant
            index.wf(),
            all == lines(index.text@),
            count == all.len(),
            current_line < count,
            i <= current_line + 1,
            current is Some <==> last_header(all.take(i as int)) is Some,
            current matches Some(n) ==> n.within(index.chars@.len()) && Some(n.of(index.chars@))
                == last_header(all.take(i as int)),
        decreases current_line + 1 - i,
    {
        let line = index.line_span(i);
        proof {
            let upto = all.take(i + 1);
            assert(upto.last() == all[i as int]);
            assert(upto.drop_last() =~= all.take(i as int));
        }
        match section_name_span(&index.chars, line) {
            Some(n) => {
                current = Some(n);
            },
            None => {},
        }
        i = i + 1;
    }
    current
}

/// `section` is the answer for line `line` of `text`.
pub open spec fn is_section_of(section: Option<String>, text: Seq<char>, line: nat) -> bool {
    match section {
        Some(name) => section_at(text, line) == Some(name@),
        None => section_at(text, line) is None,
    }
}

/// The section that line `current_line` of `content` belongs to.
pub fn get_current_section(content: &str, current_line: usize) -> (section: Option<String>)
    ensures
        is_section_of(section, content@, current_line as nat),
{
    let index = TextIndex::new(content);
    match section_span(&index, current_line) {
        Some(n) => Some(String::from_str(index.slice(n))),
        None => None,
    }
}

/// Asking again gives the same answer: two answers for the same text and
/// line name the same section, however many queries were made before or
/// between them.
pub proof fn law_same_query_same_section(
    text: Seq<char>,
    line: nat,
    first: Option<String>,
    second: Option<String>,
)
    requires
        is_section_of(first, text, line),
        is_section_of(second, text, line),
    ensures
        first is Some <==> second is Some,
        first is Some ==> first->0@ == second->0@,
{
}

/// The answer for a line depends on nothing below it: two texts with the same
/// lines up to and including line `line` have it in the same section.
pub proof fn law_section_reads_lines_above(a: Seq<char>, b: Seq<char>, line: nat)
    requires
        line < lines(a).len(),
        line < lines(b).len(),
        lines(a).take(line as int + 1) == lines(b).take(line as int + 1),
    ensures
        section_at(a, line) == section_at(b, line),
{
}

/// What [`last_header`] picks: the last header line, if there is any.
pub proof fn lemma_last_header(lines: Seq<Seq<char>>)
    ensures
        last_header(lines) is None <==> forall|j: int|
            0 <= j < lines.len() ==> !is_header(#[trigger] lines[j]),
        last_header(lines) is Some ==> exists|j: int|
            {
                &&& 0 <= j < lines.len()
                &&& is_header(#[trigger] lines[j])
                &&& last_header(lines) == Some(section_name(lines[j]))
                &&& forall|k: int| j < k < lines.len() ==> !is_header(#[trigger] lines[k])
            },
    decreases lines.len(),
{
    if lines.len() == 0 {
    } else if is_header(lines.last()) {
        let j = lines.len() - 1;
        assert(is_header(lines[j]) && last_header(lines) == Some(section_name(lines[j])));
    } else {
        let shorter = lines.drop_last();
        lemma_last_header(shorter);
        assert(forall|j: int| 0 <= j < shorter.len() ==> shorter[j] == lines[j]);
        if last_header(shorter) is Some {
            let j = choose|j: int|
                {
                    &&& 0 <= j < shorter.len()
                    &&& is_header(#[trigger] shorter[j])
                    &&& last_header(shorter) == Some(section_name(shorter[j]))
                    &&& forall|k: int| j < k < shorter.len() ==> !is_header(#[trigger] shorter[k])
                };
            assert(is_header(lines[j]));
            assert forall|k: int| j < k < lines.len() implies !is_header(#[trigger] lines[k]) by {
                if k < shorter.len() {
                    assert(shorter[k] == lines[k]);
                }
            }
        } else {
            assert forall|j: int| 0 <= j < lines.len() implies !is_header(#[trigger] lines[j]) by {
                if j < shorter.len() {
                    assert(shorter[j] == lines[j]);
                }
            }
        }
    }
}

/// A line belongs to the section of the nearest header line at or above it,
/// and to none where no header line stands there.
pub proof fn law_section_is_nearest_header(text: Seq<char>, line: nat)
    requires
        line < lines(text).len(),
    ensures
        section_at(text, line) is None <==> forall|j: int|
            0 <= j <= line ==> !is_header(#[trigger] lines(text)[j]),
        section_at(text, line) is Some ==> exists|j: int|
            {
                &&& 0 <= j <= line
                &&& is_header(#[trigger] lines(text)[j])
                &&& section_at(text, line) == Some(section_name(lines(text)[j]))
                &&& forall|k: int| j < k <= line ==> !is_header(#[trigger] lines(text)[k])
            },
{
    let all = lines(text);
    let upto = all.take(line as int + 1);
    lemma_last_header(upto);
    assert(forall|j: int| 0 <= j <= line ==> upto[j] == all[j]);
    if last_header(upto) is Some {
        let j = choose|j: int|
            {
                &&& 0 <= j < upto.len()
                &&& is_header(#[trigger] upto[j])
                &&& last_header(upto) == Some(section_name(upto[j]))
                &&& forall|k: int| j < k < upto.len() ==> !is_header(#[trigger] upto[k])
            };
        assert(is_header(all[j]));
        assert forall|k: int| j < k <= line implies !is_header(#[trigger] all[k]) by {
            assert(upto[k] == all[k]);
        }
    } else {
        assert forall|j: int| 0 <= j <= line implies !is_header(#[trigger] all[j]) by {
            assert(upto[j] == all[j]);
        }
    }
}

} // verus!
