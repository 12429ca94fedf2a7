//! Hover: what is known of the section or key on the cursor's line.

use crate::knowledge::{describe_key, describe_section, key_description, section_description};
use crate::model::{columns, columns_of, Hover, HoverView, Position};
use crate::syntax::{
    entry_key,
    entry_spans,
    header_name,
    header_span,
    is_comment,
    is_header,
    span_starts_with,
};
use crate::text::{lines, trim_span, utf8_len, TextIndex};
use vstd::prelude::*;
use vstd::string::*;

verus! {

/// The hover content for `line`, which is line `line_no`. On a header line:
/// what is known of the section, over the whole line. On another line that
/// holds `=` and is no comment: what is known of the key, over as many
/// columns as the key is long. Nothing where the name is unknown, and nothing
/// on any other line.
pub open spec fn hover_on(line_no: nat, line: Seq<char>) -> Option<HoverView> {
    if is_header(line) {
        match section_description(header_name(line)) {
            Some(text) => Some(
                HoverView { contents: text, range: columns(line_no, utf8_len(line)) },
            ),
            None => None,
        }
    } else if line.contains('=') && !is_comment(line) {
        match key_description(entry_key(line)) {
            Some(text) => Some(
                HoverView { contents: text, range: columns(line_no, utf8_len(entry_key(line))) },
            ),
            None => None,
        }
    } else {
        None
    }
}

/// The hover content for a cursor on line `line` of `text`: that of the line,
/// and nothing where the text has no such line.
pub open spec fn hover_at(text: Seq<char>, line: nat) -> Option<HoverView> {
    if line < lines(text).len() {
        hover_on(line, lines(text)[line as int])
    } else {
        None
    }
}

/// The hover content for a cursor at `position` in `content`.
pub fn get_hover_info(content: &str, position: &Position) -> (hover: Option<Hover>)
    ensures
        hover is Some <==> hover_at(content@, position.line as nat) is Some,
        hover matches Some(h) ==> hover_at(content@, position.line as nat) == Some(h@),
{
    let index = TextIndex::new(content);
    if position.line >= index.line_count() {
        return None;
    }
    let line = index.line_span(position.line);
    match header_span(&index.chars, line) {
        Some(name) => {
            return match describe_section(&index.chars, name) {
                Some(text) => Some(
                    Hover {
                        contents: String::from_str(text),
                        range: columns_of(position.line, index.width(line)),
                    },
                ),
                None => None,
            };
        },
        None => {},
    }
    let trimmed = trim_span(&index.chars, line);
    if span_starts_with(&index.chars, trimmed, '#') {
        return None;
    }
    match entry_spans(&index.chars, line) {
        Some((key, _)) => match describe_key(&index.chars, key) {
            Some(text) => Some(
                Hover {
                    contents: String::from_str(text),
                    range: columns_of(position.line, index.width(key)),
                },
            ),
            None => None,
        },
        None => None,
    }
}

} // verus!
