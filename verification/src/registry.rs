//! The document registry of `xee_interpreter`, as far as the collection uses it.
//!
//! The registry sits in a reference-counted cell. Its contents are spoken of
//! through three names, [`registry_roots`], [`registry_uris`] and
//! [`registry_idle`]; the functions below say what each call does to them.
//! None of this is proved: it is what the registry's source shows.

use vstd::prelude::*;
use crate::arena::parse_outcome;
use crate::error::DocumentsError;
use iri_string::types::IriStr;
use xee_interpreter::context::DocumentsRef;
use xee_interpreter::xml::DocumentHandle;
use xot::{Node, ParseError, Xot};

verus! {

/// The shared registry: a reference-counted cell around
/// `xee_interpreter::xml::Documents`. Opaque to the verifier.
#[verifier::external_type_specification]
#[verifier::external_body]
pub struct ExDocumentsRef(xee_interpreter::context::DocumentsRef);

/// The handle that the registry issues for a document. Opaque to the
/// verifier; a plain copyable value.
#[verifier::external_type_specification]
#[verifier::external_body]
pub struct ExDocumentHandle(xee_interpreter::xml::DocumentHandle);

/// The documents the registry holds: each handle it resolves, with the root
/// node of that handle's document.
pub uninterp spec fn registry_roots(docs: DocumentsRef) -> Map<DocumentHandle, Node>;

/// The URIs under which the registry holds a document.
pub uninterp spec fn registry_uris(docs: DocumentsRef) -> Set<Seq<char>>;

/// Nobody holds a borrow of the registry's cell, so that it can be borrowed
/// either way. Borrowing a cell that is not idle panics; every function here
/// that borrows asks for an idle cell and leaves it idle.
pub uninterp spec fn registry_idle(docs: DocumentsRef) -> bool;

/// How one call of the registry's `add_string` relates the registry before
/// and after it to its result, given what the parser made of the text.
///
/// Text that does not parse is reported and nothing is registered. A URI
/// that the registry already holds is reported and nothing is registered.
/// Otherwise the new root is registered under a handle that the registry did
/// not resolve before, and under the URI if there is one.
pub open spec fn registry_added(
    before: DocumentsRef,
    after: DocumentsRef,
    uri: Option<Seq<char>>,
    parsed: Result<Node, ParseError>,
    outcome: Result<DocumentHandle, DocumentsError>,
) -> bool {
    match parsed {
        Err(report) => {
            &&& outcome == Err::<DocumentHandle, DocumentsError>(DocumentsError::Parse(report))
            &&& registry_roots(after) == registry_roots(before)
            &&& registry_uris(after) == registry_uris(before)
        },
        Ok(root) => {
            if uri is Some && registry_uris(before).contains(uri->0) {
                &&& outcome matches Err(DocumentsError::DuplicateUri(text))
                &&& text@ == uri->0
                &&& registry_roots(after) == registry_roots(before)
                &&& registry_uris(after) == registry_uris(before)
            } else {
                &&& outcome matches Ok(handle)
                &&& !registry_roots(before).dom().contains(handle)
                &&& registry_roots(after) == registry_roots(before).insert(handle, root)
                &&& registry_uris(after) == match uri {
                    Some(text) => registry_uris(before).insert(text),
                    None => registry_uris(before),
                }
            }
        },
    }
}

/// The characters of an optional URI.
pub open spec fn optional_iri_text(uri: Option<&IriStr>) -> Option<Seq<char>> {
    match uri {
        Some(uri) => Some(crate::uri::iri_text(uri)),
        None => None,
    }
}

/// `DocumentsRef::new`: a registry that holds nothing, in a cell that nobody
/// has borrowed.
#[verifier::external_body]
pub(crate) fn registry_new() -> (fresh: DocumentsRef)
    ensures
        registry_idle(fresh),
        registry_roots(fresh) == (Map::<DocumentHandle, Node>::empty()),
        registry_uris(fresh) == Set::<Seq<char>>::empty(),
{
    DocumentsRef::new()
}

/// `xee_interpreter::xml::Documents::add_string`, on the cell borrowed
/// mutably for the length of the call.
///
/// The contract claims [`registry_added`] of the call: the text is parsed
/// into the arena first; a parse failure or a URI that the registry already
/// holds comes back as the error and leaves the registry as it was;
/// otherwise the next handle is issued for the new root. The cell is idle
/// again afterwards. Nothing is claimed of the arena after the call.
#[verifier::external_body]
pub(crate) fn registry_add(
    docs: &mut DocumentsRef,
    xot: &mut Xot,
    uri: Option<&IriStr>,
    xml: &str,
) -> (outcome: Result<DocumentHandle, DocumentsError>)
    requires
        registry_idle(*old(docs)),
    ensures
        registry_idle(*final(docs)),
        registry_added(
            *old(docs),
            *final(docs),
            optional_iri_text(uri),
            parse_outcome(*old(xot), xml@),
            outcome,
        ),
{
    match docs.borrow_mut().add_string(xot, uri, xml) {
        Ok(handle) => Ok(handle),
        Err(xee_interpreter::xml::DocumentsError::DuplicateUri(text)) => Err(
            DocumentsError::DuplicateUri(text),
        ),
        Err(xee_interpreter::xml::DocumentsError::Parse(report)) => Err(
            DocumentsError::Parse(report),
        ),
    }
}

/// `xee_interpreter::xml::Documents::get_node_by_handle`, on the cell
/// borrowed for the length of the call: the root node of the handle's
/// document if the registry resolves the handle, nothing otherwise.
#[verifier::external_body]
pub(crate) fn registry_node(docs: &DocumentsRef, handle: DocumentHandle) -> (node: Option<Node>)
    requires
        registry_idle(*docs),
    ensures
        node == (if registry_roots(*docs).dom().contains(handle) {
            Some(registry_roots(*docs)[handle])
        } else {
            None
        }),
{
    docs.borrow().get_node_by_handle(handle)
}

} // verus!
