//! The session store: the current full text of every open document.

use vstd::prelude::*;
use vstd::string::*;

verus! {

/// An open document: its identity and its current text.
pub struct Document {
    pub uri: String,
    pub text: String,
}

/// Whether `documents` holds one with the identity `uri`.
pub open spec fn holds(documents: Seq<Document>, uri: Seq<char>) -> bool {
    exists|i: int| 0 <= i < documents.len() && (#[trigger] documents[i]).uri@ == uri
}

/// The place in `documents` of one with the identity `uri`.
pub open spec fn place_of(documents: Seq<Document>, uri: Seq<char>) -> int {
    choose|i: int| 0 <= i < documents.len() && (#[trigger] documents[i]).uri@ == uri
}

/// No identity occurs twice in `documents`.
pub open spec fn distinct(documents: Seq<Document>) -> bool {
    forall|i: int, j: int|
        0 <= i < j < documents.len() ==> (#[trigger] documents[i]).uri@ != (
        #[trigger] documents[j]).uri@
}

/// The current text of each open document, by identity. A text is replaced
/// as a whole, never patched, and nothing derived from it is kept.
pub struct DocumentStore {
    documents: Vec<Document>,
}

impl View for DocumentStore {
    type V = Map<Seq<char>, Seq<char>>;

    closed spec fn view(&self) -> Map<Seq<char>, Seq<char>> {
        Map::new(
            |uri: Seq<char>| holds(self.documents@, uri),
            |uri: Seq<char>| self.documents@[place_of(self.documents@, uri)].text@,
        )
    }
}

/// The text that `documents` holds for `uri`; the empty text where it holds
/// none.
pub open spec fn text_in(documents: Map<Seq<char>, Seq<char>>, uri: Seq<char>) -> Seq<char> {
    if documents.contains_key(uri) {
        documents[uri]
    } else {
        Seq::empty()
    }
}

impl DocumentStore {
    /// No identity is held twice.
    pub closed spec fn wf(&self) -> bool {
        distinct(self.documents@)
    }

    /// A store without documents.
    pub fn new() -> (store: Self)
        ensures
            store.wf(),
            store@ == Map::<Seq<char>, Seq<char>>::empty(),
    {
        let store = DocumentStore { documents: Vec::new() };
        proof {
            assert(store@ =~= Map::<Seq<char>, Seq<char>>::empty());
        }
        store
    }

    /// The place of the document `uri`, if the store holds it.
    fn find(&self, uri: &String) -> (place: Option<usize>)
        requires
            self.wf(),
        ensures
            place is Some <==> holds(self.documents@, uri@),
            place matches Some(i) ==> i < self.documents@.len() && self.documents@[i as int].uri@
                == uri@ && place_of(self.documents@, uri@) == i,
    {
        let mut i: usize = 0;
        while i < self.documents.len()
            invariant
                i <= self.documents@.len(),
                distinct(self.documents@),
                forall|j: int| 0 <= j < i ==> (#[trigger] self.documents@[j]).uri@ != uri@,
            decreases self.documents@.len() - i,
        {
            if self.documents[i].uri == *uri {
                proof {
                    assert(holds(self.documents@, uri@));
                    let p = place_of(self.documents@, uri@);
                    assert(self.documents@[p].uri@ == uri@);
                    assert(p == i);
                }
                return Some(i);
            }
            i = i + 1;
        }
        None
    }

    /// The current text of the document `uri`, if it is open.
    pub fn get(&self, uri: &str) -> (text: Option<&str>)
        requires
            self.wf(),
        ensures
            text is Some <==> self@.contains_key(uri@),
            text matches Some(t) ==> self@[uri@] == t@,
    {
        let key = String::from_str(uri);
        match self.find(&key) {
            Some(i) => Some(self.documents[i].text.as_str()),
            None => None,
        }
    }

    /// The current text of the document `uri`; the empty text where it is
    /// not open.
    pub fn text_of(&self, uri: &str) -> (text: &str)
        requires
            self.wf(),
        ensures
            text@ == text_in(self@, uri@),
    {
        match self.get(uri) {
            Some(t) => t,
            None => {
                proof {
                    reveal_strlit("");
                    assert(""@ =~= Seq::<char>::empty());
                }
                ""
            },
        }
    }

    /// Makes `text` the current text of the document `uri`, whether or not it
    /// was open before.
    pub fn insert(&mut self, uri: &str, text: &str)
        requires
            old(self).wf(),
        ensures
            final(self).wf(),
            final(self)@ == old(self)@.insert(uri@, text@),
    {
        let key = String::from_str(uri);
        let ghost before = self.documents@;
        let ghost at: int;
        match self.find(&key) {
            Some(i) => {
                self.documents.set(i, Document { uri: key, text: String::from_str(text) });
                proof {
                    at = i as int;
                }
            },
            None => {
                self.documents.push(Document { uri: key, text: String::from_str(text) });
                proof {
                    at = before.len() as int;
                }
            },
        }
        proof {
            let after = self.documents@;
            assert(after[at].uri@ == uri@ && after[at].text@ == text@);
            assert(forall|j: int| 0 <= j < after.len() && j != at ==> after[j] == before[j]);
            assert(distinct(after));
            assert forall|k: Seq<char>| holds(after, k) <==> (k == uri@ || holds(before, k)) by {
                if holds(after, k) {
                    let p = place_of(after, k);
                    if k != uri@ {
                        assert(before[p].uri@ == k);
                    }
                }
                if holds(before, k) {
                    let p = place_of(before, k);
                    assert(after[p].uri@ == k);
                }
                if k == uri@ {
                    assert(after[at].uri@ == k);
                }
            }
            assert forall|k: Seq<char>| holds(after, k) implies after[place_of(after, k)].text@
                == (if k == uri@ {
                text@
            } else {
                before[place_of(before, k)].text@
            }) by {
                let p = place_of(after, k);
                if k != uri@ {
                    assert(before[p].uri@ == k);
                    let q = place_of(before, k);
                    assert(before[q].uri@ == k);
                    assert(after[q].uri@ == k);
                    assert(p == q);
                } else {
                    assert(after[at].uri@ == k);
                    assert(p == at);
                }
            }
            assert(self@ =~= old(self)@.insert(uri@, text@));
        }
    }

    /// Forgets the document `uri`. A document that is not open is none the
    /// less not open afterwards.
    pub fn remove(&mut self, uri: &str)
        requires
            old(self).wf(),
        ensures
            final(self).wf(),
            final(self)@ == old(self)@.remove(uri@),
    {
        let key = String::from_str(uri);
        let ghost before = self.documents@;
        match self.find(&key) {
            Some(i) => {
                self.documents.remove(i);
                proof {
                    let after = self.documents@;
                    assert(after =~= before.remove(i as int));
                    assert forall|a: int, b: int| 0 <= a < b < after.len() implies (
                    #[trigger] after[a]).uri@ != (#[trigger] after[b]).uri@ by {
                        let a0 = if a < i { a } else { a + 1 };
                        let b0 = if b < i { b } else { b + 1 };
                        assert(after[a] == before[a0]);
                        assert(after[b] == before[b0]);
                    }
                    assert forall|k: Seq<char>| holds(after, k) <==> (k != uri@ && holds(
                        before,
                        k,
                    )) by {
                        if holds(after, k) {
                            let p = place_of(after, k);
                            let p0 = if p < i { p } else { p + 1 };
                            assert(after[p] == before[p0]);
                            assert(before[p0].uri@ == k);
                        }
                        if k != uri@ && holds(before, k) {
                            let q = place_of(before, k);
                            let q1 = if q < i { q } else { q - 1 };
                            assert(after[q1] == before[q]);
                            assert(after[q1].uri@ == k);
                        }
                    }
                    assert forall|k: Seq<char>| holds(after, k) implies after[place_of(
                        after,
                        k,
                    )].text@ == before[place_of(before, k)].text@ by {
                        let p = place_of(after, k);
                        let p0 = if p < i { p } else { p + 1 };
                        assert(after[p] == before[p0]);
                        let q = place_of(before, k);
                        assert(before[q].uri@ == k);
                        assert(before[p0].uri@ == k);
                        assert(p0 == q);
                    }
                    assert(self@ =~= old(self)@.remove(uri@));
                }
            },
            None => {
                proof {
                    assert(self@ =~= old(self)@.remove(uri@));
                }
            },
        }
    }
}

} // verus!
