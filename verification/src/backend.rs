//! The session controller: it keeps the store of open documents in step with
//! the editor's notifications and answers its requests from the current text.

use crate::completion::{completions_at, get_completion_items};
use crate::diagnostics::{diagnostics_of, generate_diagnostics};
use crate::hover::{get_hover_info, hover_at};
use crate::model::{
    candidate_views,
    finding_views,
    CandidateView,
    CompletionItem,
    Finding,
    Hover,
    Position,
};
use crate::parser::{is_well_formed, parse_failure};
use crate::store::{text_in, DocumentStore};
use crate::text::lines;
use vstd::prelude::*;

verus! {

/// The state of one editing session: the open documents. All analysis is
/// derived from their current text when it is asked for.
pub struct Backend {
    documents: DocumentStore,
}

impl View for Backend {
    type V = Map<Seq<char>, Seq<char>>;

    /// The current text of each open document, by identity.
    closed spec fn view(&self) -> Map<Seq<char>, Seq<char>> {
        self.documents@
    }
}

impl Backend {
    /// The store is well-formed.
    pub closed spec fn wf(&self) -> bool {
        self.documents.wf()
    }

    /// A session without open documents.
    pub fn new() -> (backend: Self)
        ensures
            backend.wf(),
            backend@ == Map::<Seq<char>, Seq<char>>::empty(),
    {
        Backend { documents: DocumentStore::new() }
    }

    /// A document was opened: its text is stored, and the findings for it are
    /// returned for publication.
    pub fn did_open(&mut self, uri: &str, text: &str) -> (diagnostics: Vec<Finding>)
        requires
            old(self).wf(),
        ensures
            final(self).wf(),
            final(self)@ == old(self)@.insert(uri@, text@),
            finding_views(diagnostics@) == diagnostics_of(text@, parse_failure(text@)),
            parse_failure(text@) is None <==> is_well_formed(text@),
    {
        self.documents.insert(uri, text);
        generate_diagnostics(text)
    }

    /// A document was changed. Each change carries a full new text, and only
    /// the first one counts: it replaces the stored text, and the findings for
    /// it are returned for publication. Without a change nothing happens and
    /// nothing is to be published.
    pub fn did_change(&mut self, uri: &str, changes: &Vec<String>) -> (diagnostics: Option<
        Vec<Finding>,
    >)
        requires
            old(self).wf(),
        ensures
            final(self).wf(),
            changes@.len() == 0 ==> diagnostics is None && final(self)@ == old(self)@,
            changes@.len() > 0 ==> diagnostics is Some && final(self)@ == old(self)@.insert(
                uri@,
                changes@[0]@,
            ) && finding_views(diagnostics->0@) == diagnostics_of(
                changes@[0]@,
                parse_failure(changes@[0]@),
            ) && (parse_failure(changes@[0]@) is None <==> is_well_formed(changes@[0]@)),
    {
        if changes.len() == 0 {
            return None;
        }
        let text = changes[0].as_str();
        self.documents.insert(uri, text);
        Some(generate_diagnostics(text))
    }

    /// A document was closed: it is forgotten, and an empty list of findings
    /// is returned for publication, which clears what was published before.
    pub fn did_close(&mut self, uri: &str) -> (diagnostics: Vec<Finding>)
        requires
            old(self).wf(),
        ensures
            final(self).wf(),
            final(self)@ == old(self)@.remove(uri@),
            diagnostics@.len() == 0,
    {
        self.documents.remove(uri);
        Vec::new()
    }

    /// The completion candidates for a cursor at `position` in the document
    /// `uri`. A document that is not open is treated as an empty one.
    pub fn get_completion_items(&self, position: &Position, uri: &str) -> (items: Vec<
        CompletionItem,
    >)
        requires
            self.wf(),
        ensures
            candidate_views(items@) == completions_at(text_in(self@, uri@), position.line as nat),
    {
        get_completion_items(self.documents.text_of(uri), position)
    }

    /// The hover content for a cursor at `position` in the document `uri`. A
    /// document that is not open is treated as an empty one.
    pub fn get_hover_info(&self, position: &Position, uri: &str) -> (hover: Option<Hover>)
        requires
            self.wf(),
        ensures
            hover is Some <==> hover_at(text_in(self@, uri@), position.line as nat) is Some,
            hover matches Some(h) ==> hover_at(text_in(self@, uri@), position.line as nat) == Some(
                h@,
            ),
    {
        get_hover_info(self.documents.text_of(uri), position)
    }
}

/// A document that is not open reads as the empty text, for which there is
/// no completion candidate and no hover content, wherever the cursor is.
pub proof fn law_unknown_document_is_empty(
    documents: Map<Seq<char>, Seq<char>>,
    uri: Seq<char>,
    line: nat,
)
    requires
        !documents.contains_key(uri),
    ensures
        text_in(documents, uri) == Seq::<char>::empty(),
        completions_at(text_in(documents, uri), line) == Seq::<CandidateView>::empty(),
        hover_at(text_in(documents, uri), line) is None,
{
    assert(lines(Seq::<char>::empty()).len() == 0);
}

/// Once a document is closed, a request for it is answered as for an empty
/// text: no completion candidate and no hover content. What other documents
/// hold is as it was.
pub proof fn law_close_then_query(
    documents: Map<Seq<char>, Seq<char>>,
    uri: Seq<char>,
    line: nat,
)
    ensures
        completions_at(text_in(documents.remove(uri), uri), line) == Seq::<CandidateView>::empty(),
        hover_at(text_in(documents.remove(uri), uri), line) is None,
        forall|other: Seq<char>|
            other != uri ==> text_in(documents.remove(uri), other) == text_in(documents, other),
{
    law_unknown_document_is_empty(documents.remove(uri), uri, line);
}

} // verus!
