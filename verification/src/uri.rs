//! URIs as the collection takes them: `iri_string`'s validated string slice.

use vstd::prelude::*;

verus! {

/// The marker type that selects IRI syntax in `iri_string`.
#[verifier::external_type_specification]
#[verifier::external_body]
pub struct ExIriSpec(iri_string::spec::IriSpec);

/// `iri_string`'s validated string slice. Opaque to the verifier.
#[verifier::external_type_specification]
#[verifier::external_body]
#[verifier::reject_recursive_types(S)]
pub struct ExRiStr<S>(iri_string::types::RiStr<S>);

/// The characters of a URI: what `as_str` gives for it.
pub uninterp spec fn iri_text(uri: &iri_string::types::IriStr) -> Seq<char>;

/// `RiStr::as_str`: the URI as a plain string slice. The contract only gives
/// the slice's characters their name, [`iri_text`].
#[verifier::external_body]
pub(crate) fn iri_as_str(uri: &iri_string::types::IriStr) -> (s: &str)
    ensures
        s@ == iri_text(uri),
{
    uri.as_str()
}

} // verus!
