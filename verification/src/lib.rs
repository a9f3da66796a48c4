//! A collection of parsed XML documents that share one node arena.
//!
//! Documents are loaded from text, optionally under a URI, and are reached
//! afterwards through small copyable handles. A URI is bound at most once:
//! loading under a URI that is already bound hands back the handle of the
//! document that is there and changes nothing.

pub mod arena;
pub mod uri;
pub mod registry;
pub mod index;
pub mod error;
pub mod documents;
pub mod laws;

pub use crate::documents::Documents;
pub use crate::error::DocumentsError;
pub use crate::index::UriIndex;
