//! The node arena: `xot::Xot` and the node identifiers it hands out.

use vstd::prelude::*;

verus! {

/// The arena that owns the nodes of every document. Opaque to the verifier.
#[verifier::external_type_specification]
#[verifier::external_body]
pub struct ExXot(xot::Xot);

/// A node identifier of the arena. Opaque to the verifier; a plain copyable
/// value.
#[verifier::external_type_specification]
#[verifier::external_body]
pub struct ExNode(xot::Node);

/// What the parser reports for text it cannot turn into a tree.
#[verifier::external_type_specification]
#[verifier::external_body]
pub struct ExParseError(xot::ParseError);

/// What the arena's parser, `xot::Xot::parse`, makes of `xml` in the arena as
/// it stands: the document node of the new tree, or its report of what is
/// wrong with the text. The registry's `add_string` makes this call.
pub uninterp spec fn parse_outcome(arena: xot::Xot, xml: Seq<char>) -> Result<
    xot::Node,
    xot::ParseError,
>;

/// `xot::Xot::new`: a fresh arena. Nothing is claimed of it.
#[verifier::external_body]
pub(crate) fn arena_new() -> xot::Xot {
    xot::Xot::new()
}

} // verus!
