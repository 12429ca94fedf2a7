//! Completion: the candidates for a cursor, by structural context alone.

use crate::knowledge::{candidates_in, closing_candidates, closing_items, items_in};
use crate::model::{candidate_views, CandidateView, CompletionItem, Position};
use crate::scanner::{section_at, section_span};
use crate::syntax::{is_open_header, span_starts_with};
use crate::text::{find_char, lines, trim_span, TextIndex};
use vstd::prelude::*;

verus! {

/// The candidates for a cursor on line `line` of `text`. None where the text
/// has no such line. On a header that is being typed, the closing candidates,
/// whatever has been typed after the `[`. Otherwise the candidates of the
/// section that the line belongs to.
pub open spec fn completions_at(text: Seq<char>, line: nat) -> Seq<CandidateView> {
    if line >= lines(text).len() {
        Seq::empty()
    } else if is_open_header(lines(text)[line as int]) {
        closing_candidates()
    } else {
        candidates_in(section_at(text, line))
    }
}

/// The candidates for a cursor at `position` in `content`. Only the line of
/// the position counts: nothing is filtered by what has been typed.
pub fn get_completion_items(content: &str, position: &Position) -> (items: Vec<CompletionItem>)
    ensures
        candidate_views(items@) == completions_at(content@, position.line as nat),
{
    let index = TextIndex::new(content);
    if position.line >= index.line_count() {
        let items: Vec<CompletionItem> = Vec::new();
        proof {
            assert(candidate_views(items@) =~= Seq::<CandidateView>::empty());
        }
        return items;
    }
    let line = index.line_span(position.line);
    let trimmed = trim_span(&index.chars, line);
    if span_starts_with(&index.chars, trimmed, '[') && find_char(&index.chars, line, ']')
        == line.end {
        closing_items()
    } else {
        let section = section_span(&index, position.line);
        items_in(&index.chars, section)
    }
}

/// On a header that is being typed the candidates are the six that close it,
/// whatever stands after the `[` and whatever section the line is in.
pub proof fn law_open_header_offers_closings(text: Seq<char>, line: nat)
    requires
        line < lines(text).len(),
        is_open_header(lines(text)[line as int]),
    ensures
        completions_at(text, line) == closing_candidates(),
        completions_at(text, line).len() == 6,
{
}

/// Anywhere else the candidates go by the section that the scanner finds
/// for the line: the two never disagree about where a section begins.
pub proof fn law_candidates_follow_section(text: Seq<char>, line: nat)
    requires
        line < lines(text).len(),
        !is_open_header(lines(text)[line as int]),
    ensures
        completions_at(text, line) == candidates_in(section_at(text, line)),
{
}

} // verus!
