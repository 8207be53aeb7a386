//! The document specification registry: the read-only mapping from document
//! type identifier to the configuration bundle registered for that type.

use vstd::prelude::*;

use crate::doc_type::DocType;
use crate::elements::bytes_eq;
use crate::errors::RegistryError;
use crate::formatter::{framing_of, Formatter, FormatterView};
use crate::formatter_set::{FormatterSet, FormatterSetView, RenderStrategy, RenderStrategyView};
use crate::grammar::{GrammarConfig, GrammarView};
use crate::parser::{Parser, ParserView};

verus! {

/// The identifier under which the pass-through document type is registered.
pub open spec fn plain_name() -> Seq<u8> {
    // the ASCII bytes of "plain"
    seq![112u8, 108u8, 97u8, 105u8, 110u8]
}

/// The identifier under which the tag-based document type is registered.
pub open spec fn tagged_name() -> Seq<u8> {
    // the ASCII bytes of "tagged"
    seq![116u8, 97u8, 103u8, 103u8, 101u8, 100u8]
}

/// The bold marker both registered grammars recognize.
pub open spec fn bold_delimiter() -> Seq<u8> {
    // the ASCII bytes of "**"
    seq![42u8, 42u8]
}

/// The grammar of the pass-through document type: double-asterisk bold
/// markers, no escape convention, so that balanced sources round-trip.
pub open spec fn plain_grammar() -> GrammarView {
    GrammarView { delimiter: bold_delimiter(), escape: None }
}

/// The grammar of the tag-based document type: the same markers as the
/// pass-through grammar, so one source parses identically for both targets.
pub open spec fn tagged_grammar() -> GrammarView {
    GrammarView { delimiter: bold_delimiter(), escape: None }
}

/// The identity rendering strategy.
pub open spec fn identity_strategy() -> RenderStrategyView {
    RenderStrategyView { prefix: Seq::<u8>::empty(), suffix: Seq::<u8>::empty() }
}

/// The formatter set of the pass-through document type: text is rendered as
/// itself, bold runs are wrapped back in the bold marker.
pub open spec fn plain_formatter_set() -> FormatterSetView {
    FormatterSetView {
        text: Some(identity_strategy()),
        bold: Some(RenderStrategyView { prefix: bold_delimiter(), suffix: bold_delimiter() }),
    }
}

/// The opening tag the tag-based document type wraps bold runs in.
pub open spec fn bold_open_tag() -> Seq<u8> {
    // the ASCII bytes of "<b>"
    seq![60u8, 98u8, 62u8]
}

/// The closing tag the tag-based document type wraps bold runs in.
pub open spec fn bold_close_tag() -> Seq<u8> {
    // the ASCII bytes of "</b>"
    seq![60u8, 47u8, 98u8, 62u8]
}

/// The formatter set of the tag-based document type: text is rendered as
/// itself, bold runs are wrapped in a tag pair.
pub open spec fn tagged_formatter_set() -> FormatterSetView {
    FormatterSetView {
        text: Some(identity_strategy()),
        bold: Some(RenderStrategyView { prefix: bold_open_tag(), suffix: bold_close_tag() }),
    }
}

/// The mathematical shape of a document specification.
pub ghost struct DocumentSpecificationView {
    pub name: Seq<u8>,
    pub doc_type: DocType,
    pub grammar: GrammarView,
    pub formatter_set: FormatterSetView,
}

/// The specification registered for the pass-through document type.
pub open spec fn plain_specification() -> DocumentSpecificationView {
    DocumentSpecificationView {
        name: plain_name(),
        doc_type: DocType::Plain,
        grammar: plain_grammar(),
        formatter_set: plain_formatter_set(),
    }
}

/// The specification registered for the tag-based document type.
pub open spec fn tagged_specification() -> DocumentSpecificationView {
    DocumentSpecificationView {
        name: tagged_name(),
        doc_type: DocType::Tagged,
        grammar: tagged_grammar(),
        formatter_set: tagged_formatter_set(),
    }
}

/// An identifier is registered when some document specification is bound to
/// it.
pub open spec fn registered(ident: Seq<u8>) -> bool {
    ident == plain_name() || ident == tagged_name()
}

/// The specification bound to a registered identifier.
pub open spec fn spec_for(ident: Seq<u8>) -> DocumentSpecificationView
    recommends
        registered(ident),
{
    if ident == plain_name() {
        plain_specification()
    } else {
        tagged_specification()
    }
}

/// The formatter a document specification's formatter factory yields.
pub open spec fn formatter_of(ds: DocumentSpecificationView) -> FormatterView {
    FormatterView {
        doc_type: ds.doc_type,
        formatter_set: ds.formatter_set,
        preamble: framing_of(ds.doc_type).0,
        postamble: framing_of(ds.doc_type).1,
    }
}

/// One document specification: the single source of truth for one document
/// type. It binds the type's identifier to the grammar its parser scans with
/// and the formatter set its formatter renders with.
pub struct DocumentSpecification {
    pub name: Vec<u8>,
    pub doc_type: DocType,
    pub grammar: GrammarConfig,
    pub formatter_set: FormatterSet,
}

impl View for DocumentSpecification {
    type V = DocumentSpecificationView;

    open spec fn view(&self) -> DocumentSpecificationView {
        DocumentSpecificationView {
            name: self.name@,
            doc_type: self.doc_type,
            grammar: self.grammar@,
            formatter_set: self.formatter_set@,
        }
    }
}

impl DocumentSpecification {
    /// The identifier this specification is registered under.
    pub fn get_name(&self) -> (n: &Vec<u8>)
        ensures
            n@ == self@.name,
    {
        &self.name
    }

    /// The document type this specification serves.
    pub fn get_type(&self) -> (t: DocType)
        ensures
            t == self@.doc_type,
    {
        self.doc_type
    }

    /// Produces a parser configured with this specification's grammar. Each
    /// call yields an independently usable instance.
    pub fn create_parser(&self) -> (p: Parser)
        requires
            self@.grammar.wf(),
        ensures
            p@ == (ParserView { doc_type: self@.doc_type, grammar: self@.grammar }),
    {
        Parser::new(self.doc_type, self.grammar.duplicate())
    }

    /// Produces a formatter bound to this specification's formatter set.
    /// Each call yields an independently usable instance.
    pub fn create_formatter(&self) -> (f: Formatter)
        ensures
            f@ == formatter_of(self@),
    {
        let f = Formatter::new(self.doc_type, self.formatter_set.duplicate());
        proof {
            assert(f@ =~= formatter_of(self@));
        }
        f
    }
}

/// Builds the byte identifier of the pass-through document type.
pub fn make_plain_name() -> (v: Vec<u8>)
    ensures
        v@ == plain_name(),
{
    let mut v: Vec<u8> = Vec::new();
    v.push(112u8);
    v.push(108u8);
    v.push(97u8);
    v.push(105u8);
    v.push(110u8);
    proof {
        assert(v@ =~= plain_name());
    }
    v
}

/// Builds the byte identifier of the tag-based document type.
pub fn make_tagged_name() -> (v: Vec<u8>)
    ensures
        v@ == tagged_name(),
{
    let mut v: Vec<u8> = Vec::new();
    v.push(116u8);
    v.push(97u8);
    v.push(103u8);
    v.push(103u8);
    v.push(101u8);
    v.push(100u8);
    proof {
        assert(v@ =~= tagged_name());
    }
    v
}

/// Builds the bold marker both registered grammars use.
pub fn make_bold_delimiter() -> (v: Vec<u8>)
    ensures
        v@ == bold_delimiter(),
{
    let mut v: Vec<u8> = Vec::new();
    v.push(42u8);
    v.push(42u8);
    proof {
        assert(v@ =~= bold_delimiter());
    }
    v
}

/// Builds the grammar configuration of the pass-through document type.
pub fn make_plain_grammar() -> (g: GrammarConfig)
    ensures
        g@ == plain_grammar(),
        g@.wf(),
{
    GrammarConfig::new(make_bold_delimiter(), None)
}

/// Builds the grammar configuration of the tag-based document type.
pub fn make_tagged_grammar() -> (g: GrammarConfig)
    ensures
        g@ == tagged_grammar(),
        g@.wf(),
{
    GrammarConfig::new(make_bold_delimiter(), None)
}

/// Builds the formatter set of the pass-through document type.
pub fn make_plain_formatter_set() -> (fs: FormatterSet)
    ensures
        fs@ == plain_formatter_set(),
{
    let bold = RenderStrategy::new(make_bold_delimiter(), make_bold_delimiter());
    let fs = FormatterSet::new(Some(RenderStrategy::identity()), Some(bold));
    proof {
        assert(fs@ =~= plain_formatter_set());
    }
    fs
}

/// Builds the formatter set of the tag-based document type.
pub fn make_tagged_formatter_set() -> (fs: FormatterSet)
    ensures
        fs@ == tagged_formatter_set(),
{
    let mut open_tag: Vec<u8> = Vec::new();
    open_tag.push(60u8);
    open_tag.push(98u8);
    open_tag.push(62u8);
    let mut close_tag: Vec<u8> = Vec::new();
    close_tag.push(60u8);
    close_tag.push(47u8);
    close_tag.push(98u8);
    close_tag.push(62u8);
    proof {
        assert(open_tag@ =~= bold_open_tag());
        assert(close_tag@ =~= bold_close_tag());
    }
    let bold = RenderStrategy::new(open_tag, close_tag);
    let fs = FormatterSet::new(Some(RenderStrategy::identity()), Some(bold));
    proof {
        assert(fs@ =~= tagged_formatter_set());
    }
    fs
}

/// Looks up the document specification registered for an identifier. Fails
/// with `UnknownDocumentType`, and does nothing else, when no specification
/// is registered for it. Side-effect-free: repeated calls yield equivalent
/// copies of the same immutable specification.
pub fn specification_for(doc_type: &Vec<u8>) -> (r: Result<
    DocumentSpecification,
    RegistryError,
>)
    ensures
        match r {
            Ok(ds) => registered(doc_type@) && ds@ == spec_for(doc_type@) && ds@.grammar.wf(),
            Err(e) => !registered(doc_type@) && e == RegistryError::UnknownDocumentType,
        },
{
    let plain = make_plain_name();
    if bytes_eq(doc_type, &plain) {
        return Ok(DocumentSpecification {
            name: plain,
            doc_type: DocType::Plain,
            grammar: make_plain_grammar(),
            formatter_set: make_plain_formatter_set(),
        });
    }
    let tagged = make_tagged_name();
    if bytes_eq(doc_type, &tagged) {
        return Ok(DocumentSpecification {
            name: tagged,
            doc_type: DocType::Tagged,
            grammar: make_tagged_grammar(),
            formatter_set: make_tagged_formatter_set(),
        });
    }
    Err(RegistryError::UnknownDocumentType)
}

} // verus!
