//! Why a load can fail.

use vstd::prelude::*;

verus! {

/// Something went wrong while a document was loaded.
#[derive(Debug)]
pub enum DocumentsError {
    /// The registry already holds a document under this URI. The registry
    /// reports this; a collection never does, since it answers a load under
    /// a bound URI with the handle that is there.
    DuplicateUri(String),
    /// The text is not well-formed XML; the parser's report is inside.
    Parse(xot::ParseError),
}

} // verus!
