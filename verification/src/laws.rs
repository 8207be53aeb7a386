//! Laws of the parse/format pipeline, stated over the specification
//! functions and proved once for all inputs.

use vstd::prelude::*;

use crate::doc_type::DocType;
use crate::elements::ElementView;
use crate::errors::FormatterError;
use crate::formatter::{framing_of, spec_format, spec_format_elements};
use crate::formatter_set::{spec_render, spec_wrap, FormatterSetView, RenderStrategyView};
use crate::parser::{
    find_delimiter, lemma_find_delimiter, lemma_scan_run_bounds, lemma_scan_run_literal,
    lemma_scan_run_no_delimiter, matches_at, parse_from, scan_run, spec_parse,
};
use crate::registry::{
    formatter_of, identity_strategy, plain_grammar, plain_specification, registered, spec_for,
};
use crate::grammar::GrammarView;

verus! {

/// Rendering a non-empty element sequence renders its head first, then the
/// rest.
proof fn lemma_format_cons(fs: FormatterSetView, e: ElementView, rest: Seq<ElementView>)
    ensures
        spec_format_elements(fs, seq![e] + rest) == (match spec_render(fs, e) {
            Ok(first) => match spec_format_elements(fs, rest) {
                Ok(r) => Ok::<Seq<u8>, FormatterError>(first + r),
                Err(err) => Err(err),
            },
            Err(err) => Err(err),
        }),
{
    let s = seq![e] + rest;
    assert(s.len() == rest.len() + 1);
    assert(s[0] == e);
    assert(s.drop_first() =~= rest);
}

/// Formatting what was parsed from position `i` on reproduces the source
/// bytes from `i` on, whenever the formatter set passes text through
/// unchanged and wraps bold runs back in the grammar's own delimiter.
proof fn lemma_round_trip_from(s: Seq<u8>, g: GrammarView, fs: FormatterSetView, i: nat)
    requires
        g.wf(),
        g.escape is None,
        i <= s.len(),
        fs.text == Some(identity_strategy()),
        fs.bold == Some(RenderStrategyView { prefix: g.delimiter, suffix: g.delimiter }),
        parse_from(s, g, i) is Ok,
    ensures
        spec_format_elements(fs, parse_from(s, g, i)->Ok_0) == Ok::<Seq<u8>, FormatterError>(
            s.subrange(i as int, s.len() as int),
        ),
    decreases s.len() - i,
{
    let dlen = g.delimiter.len();
    if i >= s.len() {
        assert(parse_from(s, g, i)->Ok_0 =~= Seq::<ElementView>::empty());
        assert(s.subrange(i as int, s.len() as int) =~= Seq::<u8>::empty());
    } else if matches_at(s, g.delimiter, i as int) {
        lemma_find_delimiter(s, g.delimiter, i + dlen);
        match find_delimiter(s, g.delimiter, i + dlen) {
            None => {
                assert(false);
            },
            Some(j) => {
                let next = j + dlen;
                let payload = s.subrange(i + dlen as int, j as int);
                let bold = ElementView::BoldText { text: payload };
                match parse_from(s, g, next) {
                    Err(_) => {
                        assert(false);
                    },
                    Ok(rest) => {
                        lemma_round_trip_from(s, g, fs, next);
                        lemma_format_cons(fs, bold, rest);
                        assert(spec_render(fs, bold) == Ok::<Seq<u8>, FormatterError>(
                            g.delimiter + payload + g.delimiter,
                        ));
                        assert(s.subrange(i as int, i + dlen as int) == g.delimiter);
                        assert(s.subrange(j as int, j + dlen as int) == g.delimiter);
                        assert((g.delimiter + payload + g.delimiter) + s.subrange(
                            next as int,
                            s.len() as int,
                        ) =~= s.subrange(i as int, s.len() as int));
                    },
                }
            },
        }
    } else {
        lemma_scan_run_bounds(s, g, i);
        lemma_scan_run_literal(s, g, i);
        let run = scan_run(s, g, i).0;
        let n = scan_run(s, g, i).1;
        let text = ElementView::Text { text: run };
        match parse_from(s, g, n) {
            Err(_) => {
                assert(false);
            },
            Ok(rest) => {
                lemma_round_trip_from(s, g, fs, n);
                lemma_format_cons(fs, text, rest);
                assert(spec_wrap(identity_strategy(), run) =~= run);
                assert(run + s.subrange(n as int, s.len() as int) =~= s.subrange(
                    i as int,
                    s.len() as int,
                ));
            },
        }
    }
}

/// Round trip: under the pass-through (plain) document type, formatting a
/// successfully parsed source reproduces the source bytes exactly, for any
/// well-formed source (one whose delimiters are balanced, so that parsing
/// succeeds).
pub proof fn lemma_plain_round_trip(source: Seq<u8>, elems: Seq<ElementView>)
    requires
        spec_parse(source, plain_grammar()) == Ok::<Seq<ElementView>, nat>(elems),
    ensures
        spec_format(formatter_of(plain_specification()), elems) == Ok::<Seq<u8>, FormatterError>(
            source,
        ),
{
    lemma_round_trip_from(source, plain_grammar(), plain_specification().formatter_set, 0);
    assert(source.subrange(0, source.len() as int) =~= source);
    assert(framing_of(DocType::Plain).0 + source + framing_of(DocType::Plain).1 =~= source);
}

/// A source in which the grammar's delimiter never occurs parses to exactly
/// one `Text` element carrying the whole input, and any formatter set with a
/// text strategy renders that element to the input wrapped by the strategy:
/// the input itself under the identity strategy.
pub proof fn lemma_unmarked_source(
    s: Seq<u8>,
    g: GrammarView,
    fs: FormatterSetView,
    st: RenderStrategyView,
)
    requires
        g.wf(),
        g.escape is None,
        s.len() > 0,
        find_delimiter(s, g.delimiter, 0) is None,
        fs.text == Some(st),
    ensures
        spec_parse(s, g) == Ok::<Seq<ElementView>, nat>(seq![ElementView::Text { text: s }]),
        spec_format_elements(fs, seq![ElementView::Text { text: s }]) == Ok::<
            Seq<u8>,
            FormatterError,
        >(st.prefix + s + st.suffix),
{
    lemma_find_delimiter(s, g.delimiter, 0);
    assert(!matches_at(s, g.delimiter, 0));
    lemma_scan_run_no_delimiter(s, g, 0);
    lemma_scan_run_literal(s, g, 0);
    assert(scan_run(s, g, 0).0 =~= s);
    assert(parse_from(s, g, scan_run(s, g, 0).1) == Ok::<Seq<ElementView>, nat>(
        Seq::<ElementView>::empty(),
    ));
    assert(seq![ElementView::Text { text: s }] + Seq::<ElementView>::empty()
        =~= seq![ElementView::Text { text: s }]);
    lemma_format_cons(fs, ElementView::Text { text: s }, Seq::<ElementView>::empty());
    assert(spec_wrap(st, s) + Seq::<u8>::empty() =~= st.prefix + s + st.suffix);
}

/// Empty input parses to the empty element sequence under every registered
/// document type's grammar, and formats to empty output bytes under every
/// registered document type's formatter.
pub proof fn lemma_empty_input(ident: Seq<u8>)
    requires
        registered(ident),
    ensures
        spec_parse(Seq::<u8>::empty(), spec_for(ident).grammar) == Ok::<Seq<ElementView>, nat>(
            Seq::<ElementView>::empty(),
        ),
        spec_format(formatter_of(spec_for(ident)), Seq::<ElementView>::empty()) == Ok::<
            Seq<u8>,
            FormatterError,
        >(Seq::<u8>::empty()),
{
    let ds = spec_for(ident);
    assert(ds.grammar.wf());
    assert(framing_of(ds.doc_type).0 + Seq::<u8>::empty() + framing_of(ds.doc_type).1
        =~= Seq::<u8>::empty());
}

} // verus!
