//! The values that the analysis passes hand out: positions, ranges, findings,
//! completion candidates and hover content.

use vstd::prelude::*;

verus! {

/// A zero-based line and column. Columns count UTF-8 bytes from the start of
/// the line.
#[derive(Clone, Copy, Debug, PartialEq, Eq, Structural)]
pub struct Position {
    pub line: usize,
    pub character: usize,
}

/// A half-open range between two positions.
#[derive(Clone, Copy, Debug, PartialEq, Eq, Structural)]
pub struct TextRange {
    pub start: Position,
    pub end: Position,
}

/// How serious a finding is.
#[derive(Clone, Copy, Debug, PartialEq, Eq, Structural)]
pub enum Severity {
    Error,
    Warning,
}

/// One diagnostic result.
#[derive(Clone, Debug, PartialEq, Eq)]
pub struct Finding {
    pub severity: Severity,
    pub range: TextRange,
    pub message: String,
    pub source: String,
}

/// A [`Finding`] with its strings as character sequences.
pub struct FindingView {
    pub severity: Severity,
    pub range: TextRange,
    pub message: Seq<char>,
    pub source: Seq<char>,
}

impl View for Finding {
    type V = FindingView;

    open spec fn view(&self) -> FindingView {
        FindingView {
            severity: self.severity,
            range: self.range,
            message: self.message@,
            source: self.source@,
        }
    }
}

/// The views of a list of findings, in order.
pub open spec fn finding_views(findings: Seq<Finding>) -> Seq<FindingView> {
    findings.map_values(|f: Finding| f@)
}

/// One completion candidate: the text to insert and a short description.
#[derive(Clone, Debug, PartialEq, Eq)]
pub struct CompletionItem {
    pub label: String,
    pub detail: String,
}

/// A candidate as a pair of character sequences: label, then description.
pub type CandidateView = (Seq<char>, Seq<char>);

impl View for CompletionItem {
    type V = CandidateView;

    open spec fn view(&self) -> CandidateView {
        (self.label@, self.detail@)
    }
}

/// The views of a list of candidates, in order.
pub open spec fn candidate_views(items: Seq<CompletionItem>) -> Seq<CandidateView> {
    items.map_values(|c: CompletionItem| c@)
}

/// Explanatory text for the token under the cursor, and the range it is about.
#[derive(Clone, Debug, PartialEq, Eq)]
pub struct Hover {
    pub contents: String,
    pub range: TextRange,
}

/// A [`Hover`] with its text as a character sequence.
pub struct HoverView {
    pub contents: Seq<char>,
    pub range: TextRange,
}

impl View for Hover {
    type V = HoverView;

    open spec fn view(&self) -> HoverView {
        HoverView { contents: self.contents@, range: self.range }
    }
}

/// The range from column 0 to column `width` of line `line`.
pub open spec fn columns(line: nat, width: nat) -> TextRange {
    TextRange {
        start: Position { line: line as usize, character: 0 },
        end: Position { line: line as usize, character: width as usize },
    }
}

/// Executable form of [`columns`].
pub fn columns_of(line: usize, width: usize) -> (range: TextRange)
    ensures
        range == columns(line as nat, width as nat),
{
    TextRange {
        start: Position { line, character: 0 },
        end: Position { line, character: width },
    }
}

} // verus!
