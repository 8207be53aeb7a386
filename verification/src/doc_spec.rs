//! Per-document-type specifications: one implementing type per target
//! format, each binding a human-readable name, a document type, a grammar
//! and a formatter set, with factories for configured parsers and
//! formatters.

use vstd::prelude::*;

use crate::doc_type::DocType;
use crate::formatter::{framing_of, Formatter, FormatterView};
use crate::formatter_set::{FormatterSet, FormatterSetView};
use crate::grammar::{GrammarConfig, GrammarView};
use crate::parser::{Parser, ParserView};
use crate::registry;

verus! {

/// A document specification, as a type: the bundle of name, document type,
/// grammar and formatter set for one target format. The factories are pure;
/// calling one twice yields independently usable, stateless instances.
pub trait DocSpec {
    /// The human-readable name of the document type.
    spec fn spec_name() -> Seq<char>;

    /// The document type this specification serves.
    spec fn spec_type() -> DocType;

    /// The grammar this specification's parser scans with.
    spec fn spec_grammar() -> GrammarView;

    /// The formatter set this specification's formatter renders with.
    spec fn spec_formatter_set() -> FormatterSetView;

    /// Get the name of the document type.
    fn get_name() -> (n: &'static str)
        ensures
            n@ == Self::spec_name(),
    ;

    /// Get the document type.
    fn get_type() -> (t: DocType)
        ensures
            t == Self::spec_type(),
    ;

    /// Create the grammar configuration for this document specification.
    fn create_grammar() -> (g: GrammarConfig)
        ensures
            g@ == Self::spec_grammar(),
            g@.wf(),
    ;

    /// Create a formatter set for this document type.
    fn create_formatter_set() -> (fs: FormatterSet)
        ensures
            fs@ == Self::spec_formatter_set(),
    ;

    /// Create a parser for this document specification.
    ///
    /// Returns the configured parser.
    fn create_parser() -> (p: Parser)
        ensures
            p@ == (ParserView { doc_type: Self::spec_type(), grammar: Self::spec_grammar() }),
    {
        Parser::new(Self::get_type(), Self::create_grammar())
    }

    /// Create a formatter for this document specification.
    ///
    /// Returns the configured formatter.
    fn create_formatter() -> (f: Formatter)
        ensures
            f@ == (FormatterView {
                doc_type: Self::spec_type(),
                formatter_set: Self::spec_formatter_set(),
                preamble: framing_of(Self::spec_type()).0,
                postamble: framing_of(Self::spec_type()).1,
            }),
    {
        let f = Formatter::new(Self::get_type(), Self::create_formatter_set());
        proof {
            assert(f@ =~= (FormatterView {
                doc_type: Self::spec_type(),
                formatter_set: Self::spec_formatter_set(),
                preamble: framing_of(Self::spec_type()).0,
                postamble: framing_of(Self::spec_type()).1,
            }));
        }
        f
    }
}

/// The pass-through document specification: its formatter reproduces the
/// source markup around each bold run.
pub struct PlainDoc;

impl DocSpec for PlainDoc {
    open spec fn spec_name() -> Seq<char> {
        "plain"@
    }

    open spec fn spec_type() -> DocType {
        DocType::Plain
    }

    open spec fn spec_grammar() -> GrammarView {
        registry::plain_grammar()
    }

    open spec fn spec_formatter_set() -> FormatterSetView {
        registry::plain_formatter_set()
    }

    fn get_name() -> (n: &'static str) {
        "plain"
    }

    fn get_type() -> (t: DocType) {
        DocType::Plain
    }

    fn create_grammar() -> (g: GrammarConfig) {
        registry::make_plain_grammar()
    }

    fn create_formatter_set() -> (fs: FormatterSet) {
        registry::make_plain_formatter_set()
    }
}

/// The tag-based document specification: its formatter wraps each bold run
/// in a tag pair.
pub struct TaggedDoc;

impl DocSpec for TaggedDoc {
    open spec fn spec_name() -> Seq<char> {
        "tagged"@
    }

    open spec fn spec_type() -> DocType {
        DocType::Tagged
    }

    open spec fn spec_grammar() -> GrammarView {
        registry::tagged_grammar()
    }

    open spec fn spec_formatter_set() -> FormatterSetView {
        registry::tagged_formatter_set()
    }

    fn get_name() -> (n: &'static str) {
        "tagged"
    }

    fn get_type() -> (t: DocType) {
        DocType::Tagged
    }

    fn create_grammar() -> (g: GrammarConfig) {
        registry::make_tagged_grammar()
    }

    fn create_formatter_set() -> (fs: FormatterSet) {
        registry::make_tagged_formatter_set()
    }
}

} // verus!
