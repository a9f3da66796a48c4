//! What holds of a collection over several loads.
//!
//! Each law speaks of loads through [`loaded`], the relation that the two
//! load functions guarantee between the collection before and after a call.

use vstd::prelude::*;
use crate::documents::{loaded, Documents};
use crate::error::DocumentsError;
use crate::arena::parse_outcome;
use xee_interpreter::xml::DocumentHandle;

verus! {

/// Everything that `earlier` holds, `later` holds unchanged: each handle
/// resolves to the same root and each URI is bound to the same handle.
pub open spec fn extends(later: Documents, earlier: Documents) -> bool {
    &&& forall|handle: DocumentHandle| #[trigger]
        earlier.roots().dom().contains(handle) ==> later.node_of(handle) == earlier.node_of(
            handle,
        )
    &&& forall|uri: Seq<char>| #[trigger]
        earlier.bindings().dom().contains(uri) ==> later.handle_of(uri) == earlier.handle_of(uri)
}

/// A load never takes anything away: what resolved before it resolves after
/// it to the same root, and what was bound stays bound to the same handle.
pub proof fn lemma_load_extends(
    before: Documents,
    after: Documents,
    uri: Option<Seq<char>>,
    xml: Seq<char>,
    outcome: Result<DocumentHandle, DocumentsError>,
)
    requires
        loaded(before, after, uri, xml, outcome),
    ensures
        extends(after, before),
{
}

/// A collection extends itself, and extension carries over any number of
/// steps: a handle that resolves once resolves to the same root for as long
/// as the collection is only loaded into.
pub proof fn lemma_extends_chains(first: Documents, second: Documents, third: Documents)
    requires
        extends(second, first),
        extends(third, second),
    ensures
        extends(first, first),
        extends(third, first),
{
    assert forall|handle: DocumentHandle| #[trigger]
        first.roots().dom().contains(handle) implies third.node_of(handle) == first.node_of(
        handle,
    ) by {
        assert(second.roots().dom().contains(handle));
    }
    assert forall|uri: Seq<char>| #[trigger]
        first.bindings().dom().contains(uri) implies third.handle_of(uri) == first.handle_of(
        uri,
    ) by {
        assert(second.bindings().dom().contains(uri));
    }
}

/// The handle that a successful load returns resolves afterwards. Under a
/// URI it is also the handle that the URI is bound to.
pub proof fn lemma_loaded_handle_resolves(
    before: Documents,
    after: Documents,
    uri: Option<Seq<char>>,
    xml: Seq<char>,
    outcome: Result<DocumentHandle, DocumentsError>,
)
    requires
        before.wf(),
        loaded(before, after, uri, xml, outcome),
        outcome is Ok,
    ensures
        after.node_of(outcome->Ok_0) is Some,
        uri is Some ==> after.handle_of(uri->0) == Some(outcome->Ok_0),
{
    if uri is Some && before.bindings().dom().contains(uri->0) {
        before.lemma_bound_handle_resolves(uri->0);
    }
}

/// A load makes no handle resolve but the one it returns.
pub proof fn lemma_load_issues_one_handle(
    before: Documents,
    after: Documents,
    uri: Option<Seq<char>>,
    xml: Seq<char>,
    outcome: Result<DocumentHandle, DocumentsError>,
    handle: DocumentHandle,
)
    requires
        loaded(before, after, uri, xml, outcome),
        after.node_of(handle) is Some,
    ensures
        before.node_of(handle) is Some || outcome == Ok::<DocumentHandle, DocumentsError>(handle),
{
}

/// A document loaded without a URI is reached by its handle only: after the
/// load no URI is bound to the handle it returned.
pub proof fn lemma_anonymous_load_binds_nothing(
    before: Documents,
    after: Documents,
    xml: Seq<char>,
    outcome: Result<DocumentHandle, DocumentsError>,
    uri: Seq<char>,
)
    requires
        before.wf(),
        loaded(before, after, None, xml, outcome),
        outcome is Ok,
    ensures
        after.bindings() == before.bindings(),
        after.handle_of(uri) != Some(outcome->Ok_0),
{
    if before.bindings().dom().contains(uri) {
        before.lemma_bound_handle_resolves(uri);
    }
}

/// First load wins. After a successful load under a URI, a second load under
/// the same URI returns the same handle whatever its text, and leaves the
/// collection exactly as it was: the handle goes on resolving to the root it
/// resolved to. Where the URI was free before the first load, that root is
/// the one the parser made of the first text.
pub proof fn lemma_first_load_wins(
    start: Documents,
    once: Documents,
    twice: Documents,
    uri: Seq<char>,
    first_xml: Seq<char>,
    second_xml: Seq<char>,
    first: Result<DocumentHandle, DocumentsError>,
    second: Result<DocumentHandle, DocumentsError>,
)
    requires
        start.wf(),
        loaded(start, once, Some(uri), first_xml, first),
        loaded(once, twice, Some(uri), second_xml, second),
        first is Ok,
    ensures
        second == first,
        twice == once,
        twice.node_of(first->Ok_0) is Some,
        start.handle_of(uri) is None ==> twice.node_of(first->Ok_0) == Some(
            parse_outcome(start.arena(), first_xml)->Ok_0,
        ),
{
    lemma_loaded_handle_resolves(start, once, Some(uri), first_xml, first);
}

/// Loads without a URI are never merged. Two such loads that both succeed,
/// of the same text or not, return different handles, and afterwards each
/// handle resolves to the root that the parser made in its own load.
pub proof fn lemma_anonymous_loads_differ(
    start: Documents,
    once: Documents,
    twice: Documents,
    first_xml: Seq<char>,
    second_xml: Seq<char>,
    first: Result<DocumentHandle, DocumentsError>,
    second: Result<DocumentHandle, DocumentsError>,
)
    requires
        loaded(start, once, None, first_xml, first),
        loaded(once, twice, None, second_xml, second),
        first is Ok,
        second is Ok,
    ensures
        first->Ok_0 != second->Ok_0,
        twice.node_of(first->Ok_0) == Some(parse_outcome(start.arena(), first_xml)->Ok_0),
        twice.node_of(second->Ok_0) == Some(parse_outcome(once.arena(), second_xml)->Ok_0),
        twice.bindings() == start.bindings(),
{
}

/// A failed load is not remembered. A load under a URI that fails leaves the
/// registered documents and the bindings as they were, the URI still free;
/// a later load under that URI of text that parses succeeds, registers the
/// parsed root under a handle that did not resolve before, and binds the URI
/// to it.
pub proof fn lemma_failed_load_is_forgotten(
    start: Documents,
    failed: Documents,
    retried: Documents,
    uri: Seq<char>,
    bad_xml: Seq<char>,
    good_xml: Seq<char>,
    first: Result<DocumentHandle, DocumentsError>,
    second: Result<DocumentHandle, DocumentsError>,
)
    requires
        loaded(start, failed, Some(uri), bad_xml, first),
        loaded(failed, retried, Some(uri), good_xml, second),
        first is Err,
        parse_outcome(failed.arena(), good_xml) is Ok,
    ensures
        failed.roots() == start.roots(),
        failed.bindings() == start.bindings(),
        failed.handle_of(uri) is None,
        second is Ok,
        failed.node_of(second->Ok_0) is None,
        retried.node_of(second->Ok_0) == Some(parse_outcome(failed.arena(), good_xml)->Ok_0),
        retried.handle_of(uri) == Some(second->Ok_0),
{
}

/// A load fails exactly when its URI, if it has one, is free and the parser
/// rejects the text; the error is then the parser's report.
pub proof fn lemma_load_fails_on_bad_text_only(
    before: Documents,
    after: Documents,
    uri: Option<Seq<char>>,
    xml: Seq<char>,
    outcome: Result<DocumentHandle, DocumentsError>,
)
    requires
        loaded(before, after, uri, xml, outcome),
    ensures
        outcome is Err <==> (uri is Some ==> before.handle_of(uri->0) is None) && parse_outcome(
            before.arena(),
            xml,
        ) is Err,
        outcome is Err ==> outcome->Err_0 == DocumentsError::Parse(
            parse_outcome(before.arena(), xml)->Err_0,
        ),
{
}

} // verus!
