//! The collection: one arena, one registry, and the URI index that makes a
//! load under a bound URI hand back the document that is there.

use vstd::prelude::*;
use crate::arena::{arena_new, parse_outcome};
use crate::error::DocumentsError;
use crate::index::UriIndex;
use crate::registry::{
    registry_add, registry_idle, registry_new, registry_node, registry_roots, registry_uris,
};
use crate::uri::{iri_as_str, iri_text};
use iri_string::types::IriStr;
use xee_interpreter::context::DocumentsRef;
use xee_interpreter::xml::DocumentHandle;
use xot::{Node, Xot};

verus! {

/// A collection of XML documents and their nodes.
///
/// The nodes of every document live in one arena. A document is reached
/// through the handle that its load returned. Once a document is present
/// under a URI it is never replaced: a later load under that URI returns the
/// same handle and discards the new text.
///
/// The registry is shared: [`Documents::documents`] hands out the cell it
/// lives in. What is stated here of a collection holds as long as the
/// registry is changed through the collection's own methods only.
#[derive(Debug)]
pub struct Documents {
    pub(crate) xot: Xot,
    pub(crate) documents: DocumentsRef,
    pub(crate) by_uri: UriIndex,
}

/// How a load relates the collection before and after it to its outcome.
///
/// Under a URI that is bound, the bound handle comes back and the collection
/// is unchanged. Otherwise the parser decides: text that parses is registered
/// under a handle that did not resolve before, and the URI, if there is one,
/// is bound to that handle; text that does not parse is reported and neither
/// the registered documents nor the bindings change.
pub open spec fn loaded(
    before: Documents,
    after: Documents,
    uri: Option<Seq<char>>,
    xml: Seq<char>,
    outcome: Result<DocumentHandle, DocumentsError>,
) -> bool {
    if uri is Some && before.bindings().dom().contains(uri->0) {
        &&& outcome == Ok::<DocumentHandle, DocumentsError>(before.bindings()[uri->0])
        &&& after == before
    } else {
        match parse_outcome(before.arena(), xml) {
            Ok(root) => {
                &&& outcome matches Ok(handle)
                &&& !before.roots().dom().contains(handle)
                &&& after.roots() == before.roots().insert(handle, root)
                &&& after.bindings() == match uri {
                    Some(text) => before.bindings().insert(text, handle),
                    None => before.bindings(),
                }
            },
            Err(report) => {
                &&& outcome == Err::<DocumentHandle, DocumentsError>(DocumentsError::Parse(report))
                &&& after.roots() == before.roots()
                &&& after.bindings() == before.bindings()
            },
        }
    }
}

impl Documents {
    /// The registered documents: each handle that resolves, with the root
    /// node of its document.
    pub closed spec fn roots(&self) -> Map<DocumentHandle, Node> {
        registry_roots(self.documents)
    }

    /// The bound URIs, each with the handle of the document loaded under it.
    pub closed spec fn bindings(&self) -> Map<Seq<char>, DocumentHandle> {
        self.by_uri@
    }

    /// What a handle resolves to: the root node of its document, or nothing
    /// for a handle that this collection has not issued.
    pub open spec fn node_of(&self, handle: DocumentHandle) -> Option<Node> {
        if self.roots().dom().contains(handle) {
            Some(self.roots()[handle])
        } else {
            None
        }
    }

    /// The handle that a URI is bound to, if it is bound.
    pub open spec fn handle_of(&self, uri: Seq<char>) -> Option<DocumentHandle> {
        if self.bindings().dom().contains(uri) {
            Some(self.bindings()[uri])
        } else {
            None
        }
    }

    /// The arena as it stands.
    pub closed spec fn arena(&self) -> Xot {
        self.xot
    }

    /// The cell that the registry lives in.
    pub closed spec fn registry(&self) -> DocumentsRef {
        self.documents
    }

    /// The collection's invariant: the index and the registry agree on which
    /// URIs are taken, every bound handle resolves, and nobody holds a borrow
    /// of the registry.
    pub closed spec fn wf(&self) -> bool {
        &&& self.by_uri.wf()
        &&& registry_idle(self.documents)
        &&& registry_uris(self.documents) == self.by_uri@.dom()
        &&& forall|uri: Seq<char>| #[trigger]
            self.by_uri@.dom().contains(uri) ==> registry_roots(self.documents).dom().contains(
                self.by_uri@[uri],
            )
    }

    /// Every bound URI is bound to a handle that resolves.
    pub proof fn lemma_bound_handle_resolves(&self, uri: Seq<char>)
        requires
            self.wf(),
            self.bindings().dom().contains(uri),
        ensures
            self.roots().dom().contains(self.bindings()[uri]),
    {
    }

    /// Create a new empty collection of documents.
    pub fn new() -> (created: Self)
        ensures
            created.wf(),
            created.roots() == Map::<DocumentHandle, Node>::empty(),
            created.bindings() == Map::<Seq<char>, DocumentHandle>::empty(),
    {
        Documents { xot: arena_new(), documents: registry_new(), by_uri: UriIndex::new() }
    }

    /// Load a string as an XML document. Designate it with a URI.
    ///
    /// If a document is already present under the URI, its handle is
    /// returned and `xml` is not looked at.
    pub fn add_string(&mut self, uri: &IriStr, xml: &str) -> (outcome: Result<
        DocumentHandle,
        DocumentsError,
    >)
        requires
            old(self).wf(),
        ensures
            final(self).wf(),
            loaded(*old(self), *final(self), Some(iri_text(uri)), xml@, outcome),
            outcome matches Ok(handle) ==> final(self).roots().dom().contains(handle),
    {
        let text = iri_as_str(uri);
        match self.by_uri.lookup(text) {
            Some(handle) => Ok(handle),
            None => {
                let added = registry_add(&mut self.documents, &mut self.xot, Some(uri), xml);
                self.by_uri.record(text, added)
            },
        }
    }

    /// Load a string as an XML document without designating it with a URI.
    ///
    /// Every such load that parses registers a document of its own.
    pub fn add_string_without_uri(&mut self, xml: &str) -> (outcome: Result<
        DocumentHandle,
        DocumentsError,
    >)
        requires
            old(self).wf(),
        ensures
            final(self).wf(),
            loaded(*old(self), *final(self), None, xml@, outcome),
            outcome matches Ok(handle) ==> final(self).roots().dom().contains(handle),
    {
        registry_add(&mut self.documents, &mut self.xot, None, xml)
    }

    /// Given a handle give back the document node, or nothing for a handle
    /// that this collection does not resolve.
    pub fn document_node(&self, handle: DocumentHandle) -> (node: Option<Node>)
        requires
            self.wf(),
        ensures
            node == self.node_of(handle),
    {
        registry_node(&self.documents, handle)
    }

    /// The handle of the document that is present under a URI, if one is.
    pub fn handle_by_uri(&self, uri: &IriStr) -> (handle: Option<DocumentHandle>)
        requires
            self.wf(),
        ensures
            handle == self.handle_of(iri_text(uri)),
    {
        self.by_uri.lookup(iri_as_str(uri))
    }

    /// Get a reference to the registry's cell.
    ///
    /// A borrow of the cell must be given up before the collection is used
    /// again: its methods borrow the cell themselves.
    pub fn documents(&self) -> (shared: &DocumentsRef)
        ensures
            *shared == self.registry(),
            registry_roots(*shared) == self.roots(),
            self.wf() ==> registry_uris(*shared) == self.bindings().dom(),
    {
        &self.documents
    }

    /// Get a reference to the Xot arena
    pub fn xot(&self) -> (arena: &Xot)
        ensures
            *arena == self.arena(),
    {
        &self.xot
    }

    /// Get a mutable reference to the Xot arena
    pub fn xot_mut(&mut self) -> (arena: &mut Xot)
        ensures
            *arena == old(self).arena(),
            final(self).arena() == *final(arena),
            final(self).registry() == old(self).registry(),
            final(self).roots() == old(self).roots(),
            final(self).bindings() == old(self).bindings(),
            final(self).wf() == old(self).wf(),
    {
        &mut self.xot
    }
}

impl Default for Documents {
    fn default() -> (created: Self)
        ensures
            created.wf(),
            created.roots() == Map::<DocumentHandle, Node>::empty(),
            created.bindings() == Map::<Seq<char>, DocumentHandle>::empty(),
    {
        Self::new()
    }
}

} // verus!
