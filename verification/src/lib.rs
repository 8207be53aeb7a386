//! Notes toolbox: parse plain-text notes into a sequence of semantic
//! elements and render that sequence into a chosen target document format.
//!
//! Source bytes flow through a parser, driven by the grammar of a document
//! specification, into an ordered element sequence; a formatter then renders
//! that sequence, through the same specification's formatter set, into
//! output bytes. Specifications are looked up in a read-only registry keyed
//! by document type identifier.

pub mod doc_spec;
pub mod doc_type;
pub mod elements;
pub mod errors;
pub mod formatter;
pub mod formatter_set;
pub mod grammar;
pub mod laws;
pub mod parser;
pub mod registry;
