//! The URI index: which handle each URI is bound to.
//!
//! A URI is bound once and the binding never changes afterwards.

use vstd::prelude::*;
use crate::error::DocumentsError;
use xee_interpreter::xml::DocumentHandle;

verus! {

/// One binding of the index: a URI and the handle of the document loaded
/// under it.
#[derive(Debug)]
pub struct UriBinding {
    pub uri: String,
    pub handle: DocumentHandle,
}

/// The bindings that a sequence of entries makes, read from the front.
pub open spec fn bindings_of(entries: Seq<UriBinding>) -> Map<Seq<char>, DocumentHandle>
    decreases entries.len(),
{
    if entries.len() == 0 {
        Map::empty()
    } else {
        bindings_of(entries.drop_last()).insert(entries.last().uri@, entries.last().handle)
    }
}

/// No URI occurs in two entries.
pub open spec fn distinct_uris(entries: Seq<UriBinding>) -> bool {
    forall|i: int, j: int|
        0 <= i < j < entries.len() ==> (#[trigger] entries[i]).uri@ != (#[trigger] entries[j]).uri@
}

/// A URI is bound exactly when some entry carries it.
pub proof fn lemma_bound_iff_listed(entries: Seq<UriBinding>, uri: Seq<char>)
    ensures
        bindings_of(entries).dom().contains(uri) <==> exists|i: int|
            0 <= i < entries.len() && (#[trigger] entries[i]).uri@ == uri,
    decreases entries.len(),
{
    if entries.len() > 0 {
        let front = entries.drop_last();
        lemma_bound_iff_listed(front, uri);
        if bindings_of(entries).dom().contains(uri) {
            if entries.last().uri@ == uri {
                assert(entries[entries.len() - 1].uri@ == uri);
            } else {
                let i = choose|i: int| 0 <= i < front.len() && (#[trigger] front[i]).uri@ == uri;
                assert(entries[i].uri@ == uri);
            }
        }
        if exists|i: int| 0 <= i < entries.len() && (#[trigger] entries[i]).uri@ == uri {
            let i = choose|i: int| 0 <= i < entries.len() && (#[trigger] entries[i]).uri@ == uri;
            if i < front.len() {
                assert(front[i].uri@ == uri);
            }
        }
    }
}

/// Where no URI occurs twice, an entry's URI is bound to that entry's handle.
pub proof fn lemma_entry_is_binding(entries: Seq<UriBinding>, i: int)
    requires
        distinct_uris(entries),
        0 <= i < entries.len(),
    ensures
        bindings_of(entries).dom().contains(entries[i].uri@),
        bindings_of(entries)[entries[i].uri@] == entries[i].handle,
    decreases entries.len(),
{
    let front = entries.drop_last();
    if i < entries.len() - 1 {
        assert(front[i] == entries[i]);
        assert(entries[i].uri@ != entries[entries.len() - 1].uri@);
        assert forall|a: int, b: int| 0 <= a < b < front.len() implies (#[trigger] front[a]).uri@
            != (#[trigger] front[b]).uri@ by {
            assert(front[a] == entries[a] && front[b] == entries[b]);
        }
        lemma_entry_is_binding(front, i);
    }
}

/// The URI index of a collection.
#[derive(Debug)]
pub struct UriIndex {
    entries: Vec<UriBinding>,
}

impl View for UriIndex {
    type V = Map<Seq<char>, DocumentHandle>;

    closed spec fn view(&self) -> Map<Seq<char>, DocumentHandle> {
        bindings_of(self.entries@)
    }
}

impl UriIndex {
    /// No URI is listed twice.
    pub closed spec fn wf(&self) -> bool {
        distinct_uris(self.entries@)
    }

    /// An index without bindings.
    pub fn new() -> (index: UriIndex)
        ensures
            index.wf(),
            index@ == Map::<Seq<char>, DocumentHandle>::empty(),
    {
        UriIndex { entries: Vec::new() }
    }

    /// Where `key` is listed, if it is.
    fn position(&self, key: &String) -> (found: Option<usize>)
        requires
            self.wf(),
        ensures
            match found {
                Some(at) => {
                    &&& at < self.entries@.len()
                    &&& self.entries@[at as int].uri@ == key@
                    &&& self@.dom().contains(key@)
                    &&& self@[key@] == self.entries@[at as int].handle
                },
                None => !self@.dom().contains(key@),
            },
    {
        let mut i: usize = 0;
        while i < self.entries.len()
            invariant
                0 <= i <= self.entries.len(),
                self.wf(),
                forall|k: int| 0 <= k < i ==> (#[trigger] self.entries@[k]).uri@ != key@,
            decreases self.entries.len() - i,
        {
            if self.entries[i].uri == *key {
                proof {
                    lemma_entry_is_binding(self.entries@, i as int);
                }
                return Some(i);
            }
            i += 1;
        }
        proof {
            lemma_bound_iff_listed(self.entries@, key@);
        }
        None
    }

    /// The handle that `uri` is bound to, if it is bound.
    pub fn lookup(&self, uri: &str) -> (found: Option<DocumentHandle>)
        requires
            self.wf(),
        ensures
            found == (if self@.dom().contains(uri@) {
                Some(self@[uri@])
            } else {
                None
            }),
    {
        let key: String = uri.to_owned();
        match self.position(&key) {
            Some(at) => Some(self.entries[at].handle),
            None => None,
        }
    }

    /// Binds `uri` to `handle` unless it is bound already: the first binding
    /// of a URI stays. Returns the handle that `uri` is bound to afterwards.
    pub fn bind(&mut self, uri: &str, handle: DocumentHandle) -> (bound: DocumentHandle)
        requires
            old(self).wf(),
        ensures
            final(self).wf(),
            bound == (if old(self)@.dom().contains(uri@) {
                old(self)@[uri@]
            } else {
                handle
            }),
            final(self)@ == (if old(self)@.dom().contains(uri@) {
                old(self)@
            } else {
                old(self)@.insert(uri@, handle)
            }),
    {
        let key: String = uri.to_owned();
        match self.position(&key) {
            Some(at) => self.entries[at].handle,
            None => {
                proof {
                    lemma_bound_iff_listed(self.entries@, key@);
                }
                let ghost before = self.entries@;
                self.entries.push(UriBinding { uri: key, handle });
                assert(self.entries@.drop_last() == before);
                handle
            },
        }
    }

    /// Takes note of how a load under `uri` ended. A handle that was issued
    /// is bound to `uri`, unless `uri` is bound already, and the handle that
    /// `uri` is then bound to is handed on. A failure is handed on as it is
    /// and leaves the index as it was.
    pub fn record(
        &mut self,
        uri: &str,
        outcome: Result<DocumentHandle, DocumentsError>,
    ) -> (handed_on: Result<DocumentHandle, DocumentsError>)
        requires
            old(self).wf(),
        ensures
            final(self).wf(),
            handed_on == (match outcome {
                Ok(handle) if old(self)@.dom().contains(uri@) => Ok(old(self)@[uri@]),
                _ => outcome,
            }),
            final(self)@ == (match outcome {
                Ok(handle) if !old(self)@.dom().contains(uri@) => old(self)@.insert(uri@, handle),
                _ => old(self)@,
            }),
    {
        match outcome {
            Ok(handle) => Ok(self.bind(uri, handle)),
            Err(error) => Err(error),
        }
    }
}

} // verus!
