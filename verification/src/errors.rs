//! Error values produced by the parsing and formatting pipeline. All failures
//! are reported as values; no operation emits partial or best-effort output.

use vstd::prelude::*;

verus! {

/// Failure of a parse. Parsing aborts entirely on failure: no partial element
/// sequence is ever produced alongside one of these.
#[derive(Clone, Copy, Debug, PartialEq, Eq, Structural)]
pub enum ParseError {
    /// An opening bold delimiter with no matching closing delimiter before
    /// the end of the input. `offset` is the byte position of the unmatched
    /// opening delimiter.
    UnterminatedMarkup { offset: usize },
}

/// Failure of a format. A missing rendering strategy is a configuration
/// defect of the document specification, not a property of the source.
#[derive(Clone, Copy, Debug, PartialEq, Eq, Structural)]
pub enum FormatterError {
    /// The bound formatter set has no rendering strategy for the element's
    /// variant.
    UnsupportedElement,
}

/// Failure of a registry lookup.
#[derive(Clone, Copy, Debug, PartialEq, Eq, Structural)]
pub enum RegistryError {
    /// The requested document type identifier has no registered
    /// document specification.
    UnknownDocumentType,
}

} // verus!
