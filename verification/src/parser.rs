//! The parser: a single left-to-right scan that turns raw source bytes into
//! an ordered sequence of elements, driven by a grammar configuration.

use vstd::prelude::*;

use crate::doc_type::DocType;
use crate::elements::{elems_view, ElementView, Elements};
use crate::errors::ParseError;
use crate::grammar::{GrammarConfig, GrammarView};

verus! {

/// The delimiter `d` occurs in `s` at position `i`.
pub open spec fn matches_at(s: Seq<u8>, d: Seq<u8>, i: int) -> bool {
    0 <= i && i + d.len() <= s.len() && s.subrange(i, i + d.len()) == d
}

/// The escape byte of `g` stands in `s` at position `i`.
pub open spec fn escape_at(s: Seq<u8>, g: GrammarView, i: int) -> bool {
    g.escape matches Some(e) && 0 <= i < s.len() && s[i] == e
}

/// The smallest position `j >= start` at which the delimiter occurs in `s`,
/// if any.
pub open spec fn find_delimiter(s: Seq<u8>, d: Seq<u8>, start: nat) -> Option<nat>
    decreases s.len() - start,
{
    if d.len() == 0 || start + d.len() > s.len() {
        None
    } else if matches_at(s, d, start as int) {
        Some(start)
    } else {
        find_delimiter(s, d, start + 1)
    }
}

/// The plain-text run beginning at `i`: the literal bytes accumulated until
/// the next delimiter occurrence or the end of the input, together with the
/// position where the run ends. An escape byte (when one is configured and is
/// not itself the start of a delimiter occurrence) makes the byte after it
/// literal; an escape byte that ends the input stands for itself.
pub open spec fn scan_run(s: Seq<u8>, g: GrammarView, i: nat) -> (Seq<u8>, nat)
    decreases s.len() - i,
{
    if i >= s.len() {
        (Seq::<u8>::empty(), i)
    } else if matches_at(s, g.delimiter, i as int) {
        (Seq::<u8>::empty(), i)
    } else if escape_at(s, g, i as int) && i + 1 < s.len() {
        let (run, n) = scan_run(s, g, i + 2);
        (seq![s[i + 1 as int]] + run, n)
    } else {
        let (run, n) = scan_run(s, g, i + 1);
        (seq![s[i as int]] + run, n)
    }
}

/// What parsing the suffix of `s` that starts at `i` yields: the elements in
/// source order, or the byte offset of an opening delimiter that has no
/// matching closing delimiter. A grammar whose delimiter is empty recognizes
/// no markup at all.
pub open spec fn parse_from(s: Seq<u8>, g: GrammarView, i: nat) -> Result<Seq<ElementView>, nat>
    recommends
        g.wf(),
        i <= s.len(),
    decreases s.len() - i,
    via parse_from_decreases
{
    if !g.wf() {
        if i < s.len() {
            Ok(seq![ElementView::Text { text: s.subrange(i as int, s.len() as int) }])
        } else {
            Ok(Seq::<ElementView>::empty())
        }
    } else if i >= s.len() {
        Ok(Seq::<ElementView>::empty())
    } else if matches_at(s, g.delimiter, i as int) {
        match find_delimiter(s, g.delimiter, i + g.delimiter.len()) {
            None => Err(i),
            Some(j) => match parse_from(s, g, j + g.delimiter.len()) {
                Ok(rest) => Ok(
                    seq![
                        ElementView::BoldText {
                            text: s.subrange(i + g.delimiter.len() as int, j as int),
                        },
                    ] + rest,
                ),
                Err(off) => Err(off),
            },
        }
    } else {
        let (run, n) = scan_run(s, g, i);
        match parse_from(s, g, n) {
            Ok(rest) => Ok(seq![ElementView::Text { text: run }] + rest),
            Err(off) => Err(off),
        }
    }
}

#[via_fn]
proof fn parse_from_decreases(s: Seq<u8>, g: GrammarView, i: nat) {
    if g.wf() && i < s.len() {
        if matches_at(s, g.delimiter, i as int) {
            match find_delimiter(s, g.delimiter, i + g.delimiter.len()) {
                None => {},
                Some(j) => {
                    lemma_find_delimiter(s, g.delimiter, i + g.delimiter.len());
                },
            }
        } else {
            lemma_scan_run_bounds(s, g, i);
        }
    }
}

/// What parsing all of `s` under grammar `g` yields.
pub open spec fn spec_parse(s: Seq<u8>, g: GrammarView) -> Result<Seq<ElementView>, nat>
    recommends
        g.wf(),
{
    parse_from(s, g, 0)
}

/// `find_delimiter` returns the first occurrence of the delimiter at or
/// after `start`, and `None` exactly when there is none.
pub proof fn lemma_find_delimiter(s: Seq<u8>, d: Seq<u8>, start: nat)
    requires
        d.len() >= 1,
    ensures
        match find_delimiter(s, d, start) {
            Some(j) => start <= j && j + d.len() <= s.len() && matches_at(s, d, j as int)
                && (forall|k: int| start <= k < j ==> !matches_at(s, d, k)),
            None => forall|k: int| start <= k ==> !matches_at(s, d, k),
        },
    decreases s.len() - start,
{
    if start + d.len() > s.len() {
        assert forall|k: int| start <= k implies !matches_at(s, d, k) by {
            assert(k + d.len() > s.len());
        }
    } else if matches_at(s, d, start as int) {
    } else {
        lemma_find_delimiter(s, d, start + 1);
        match find_delimiter(s, d, start + 1) {
            Some(j) => {
                assert forall|k: int| start <= k < j implies !matches_at(s, d, k) by {
                    if k == start {
                    } else {
                        assert(start + 1 <= k < j);
                    }
                }
            },
            None => {
                assert forall|k: int| start <= k implies !matches_at(s, d, k) by {
                    if k == start {
                    } else {
                        assert(start + 1 <= k);
                    }
                }
            },
        }
    }
}

/// A run scan never moves backwards, never runs past the end of the input,
/// and makes progress whenever it starts on an ordinary byte.
pub proof fn lemma_scan_run_bounds(s: Seq<u8>, g: GrammarView, i: nat)
    requires
        i <= s.len(),
    ensures
        i <= scan_run(s, g, i).1 <= s.len(),
        i < s.len() && !matches_at(s, g.delimiter, i as int) ==> scan_run(s, g, i).1 > i,
    decreases s.len() - i,
{
    if i >= s.len() {
    } else if matches_at(s, g.delimiter, i as int) {
    } else if escape_at(s, g, i as int) && i + 1 < s.len() {
        lemma_scan_run_bounds(s, g, i + 2);
    } else {
        lemma_scan_run_bounds(s, g, i + 1);
    }
}

/// Without an escape byte in play, the run scanned from `i` is exactly the
/// slice of the source up to the position where the scan stops.
pub proof fn lemma_scan_run_literal(s: Seq<u8>, g: GrammarView, i: nat)
    requires
        i <= s.len(),
        g.escape is None,
    ensures
        scan_run(s, g, i).0 == s.subrange(i as int, scan_run(s, g, i).1 as int),
    decreases s.len() - i,
{
    lemma_scan_run_bounds(s, g, i);
    if i >= s.len() {
        assert(scan_run(s, g, i).0 =~= s.subrange(i as int, i as int));
    } else if matches_at(s, g.delimiter, i as int) {
        assert(scan_run(s, g, i).0 =~= s.subrange(i as int, i as int));
    } else {
        lemma_scan_run_literal(s, g, i + 1);
        lemma_scan_run_bounds(s, g, i + 1);
        let n = scan_run(s, g, i + 1).1;
        assert(seq![s[i as int]] + s.subrange(i + 1 as int, n as int) =~= s.subrange(
            i as int,
            n as int,
        ));
    }
}

/// When the delimiter occurs nowhere at or after `i`, the run scanned from
/// `i` stops only at the end of the input.
pub proof fn lemma_scan_run_no_delimiter(s: Seq<u8>, g: GrammarView, i: nat)
    requires
        i <= s.len(),
        forall|k: int| i <= k ==> !matches_at(s, g.delimiter, k),
    ensures
        scan_run(s, g, i).1 == s.len(),
    decreases s.len() - i,
{
    if i >= s.len() {
    } else if escape_at(s, g, i as int) && i + 1 < s.len() {
        lemma_scan_run_no_delimiter(s, g, i + 2);
    } else {
        lemma_scan_run_no_delimiter(s, g, i + 1);
    }
}

/// The mathematical shape of a parser: the document type it serves and the
/// grammar it scans with.
pub ghost struct ParserView {
    pub doc_type: DocType,
    pub grammar: GrammarView,
}

/// A configured parser for one document type.
pub struct Parser {
    pub doc_type: DocType,
    pub grammar: GrammarConfig,
}

impl View for Parser {
    type V = ParserView;

    open spec fn view(&self) -> ParserView {
        ParserView { doc_type: self.doc_type, grammar: self.grammar@ }
    }
}

impl Parser {
    /// Builds a parser for the given document type, scanning with the given
    /// grammar.
    pub fn new(doc_type: DocType, grammar: GrammarConfig) -> (p: Parser)
        requires
            grammar@.wf(),
        ensures
            p@ == (ParserView { doc_type, grammar: grammar@ }),
    {
        Parser { doc_type, grammar }
    }

    /// The document type this parser is for.
    pub fn get_type(&self) -> (t: DocType)
        ensures
            t == self@.doc_type,
    {
        self.doc_type
    }

    /// Parses the source bytes into elements in source order. Fails, with
    /// the byte offset of the unmatched opening delimiter, when an opened
    /// bold span is never closed; no partial element sequence is produced.
    pub fn parse(&self, source: &Vec<u8>) -> (r: Result<Vec<Elements>, ParseError>)
        requires
            self@.grammar.wf(),
        ensures
            match r {
                Ok(es) => spec_parse(source@, self@.grammar) == Ok::<Seq<ElementView>, nat>(
                    elems_view(es@),
                ),
                Err(e) => match e {
                    ParseError::UnterminatedMarkup { offset } => spec_parse(source@, self@.grammar)
                        == Err::<Seq<ElementView>, nat>(offset as nat),
                },
            },
    {
        let ghost g = self@.grammar;
        let n = source.len();
        let d_len = self.grammar.delimiter.len();
        let mut out: Vec<Elements> = Vec::new();
        let mut i: usize = 0;
        proof {
            assert(elems_view(out@) + parse_from(source@, g, 0)->Ok_0 =~= parse_from(
                source@,
                g,
                0,
            )->Ok_0);
        }
        while i < n
            invariant
                i <= n == source@.len(),
                g == self@.grammar,
                g.wf(),
                d_len == g.delimiter.len(),
                match parse_from(source@, g, i as nat) {
                    Ok(rest) => parse_from(source@, g, 0) == Ok::<Seq<ElementView>, nat>(
                        elems_view(out@) + rest,
                    ),
                    Err(off) => parse_from(source@, g, 0) == Err::<Seq<ElementView>, nat>(off),
                },
            decreases n - i,
        {
            if is_match(source, &self.grammar.delimiter, i) {
                let search_start = i + d_len;
                proof {
                    lemma_find_delimiter(source@, g.delimiter, search_start as nat);
                }
                match find_delim(source, &self.grammar.delimiter, search_start) {
                    None => {
                        return Err(ParseError::UnterminatedMarkup { offset: i });
                    },
                    Some(j) => {
                        let payload = copy_range(source, search_start, j);
                        let ghost old_out = out@;
                        let ghost old_i = i as nat;
                        out.push(Elements::BoldText { text: payload });
                        i = j + d_len;
                        proof {
                            let bold = ElementView::BoldText {
                                text: source@.subrange(old_i + g.delimiter.len() as int, j as int),
                            };
                            assert(elems_view(out@) =~= elems_view(old_out).push(bold));
                            match parse_from(source@, g, i as nat) {
                                Ok(rest) => {
                                    assert(parse_from(source@, g, old_i) == Ok::<
                                        Seq<ElementView>,
                                        nat,
                                    >(seq![bold] + rest));
                                    assert(elems_view(old_out) + (seq![bold] + rest)
                                        =~= elems_view(out@) + rest);
                                },
                                Err(_) => {},
                            }
                        }
                    },
                }
            } else {
                let ghost old_out = out@;
                let ghost old_i = i as nat;
                proof {
                    lemma_scan_run_bounds(source@, g, i as nat);
                }
                let (run, next) = scan_range(source, &self.grammar, i);
                out.push(Elements::Text { text: run });
                i = next;
                proof {
                    let text = ElementView::Text { text: scan_run(source@, g, old_i).0 };
                    assert(elems_view(out@) =~= elems_view(old_out).push(text));
                    match parse_from(source@, g, i as nat) {
                        Ok(rest) => {
                            assert(parse_from(source@, g, old_i) == Ok::<Seq<ElementView>, nat>(
                                seq![text] + rest,
                            ));
                            assert(elems_view(old_out) + (seq![text] + rest) =~= elems_view(out@)
                                + rest);
                        },
                        Err(_) => {},
                    }
                }
            }
        }
        proof {
            assert(parse_from(source@, g, i as nat) == Ok::<Seq<ElementView>, nat>(
                Seq::<ElementView>::empty(),
            ));
            assert(elems_view(out@) + Seq::<ElementView>::empty() =~= elems_view(out@));
        }
        Ok(out)
    }
}

/// Whether the delimiter occurs in the source at position `i`.
fn is_match(s: &Vec<u8>, d: &Vec<u8>, i: usize) -> (b: bool)
    requires
        i <= s@.len(),
    ensures
        b == matches_at(s@, d@, i as int),
{
    if d.len() > s.len() - i {
        return false;
    }
    let mut k: usize = 0;
    while k < d.len()
        invariant
            k <= d.len(),
            s@.len() <= usize::MAX,
            i + d@.len() <= s@.len(),
            forall|m: int| 0 <= m < k ==> s@[i + m] == d@[m],
        decreases d.len() - k,
    {
        if s[i + k] != d[k] {
            proof {
                assert(s@.subrange(i as int, i + d@.len())[k as int] == s@[i + k]);
            }
            return false;
        }
        k = k + 1;
    }
    proof {
        assert(s@.subrange(i as int, i + d@.len()) =~= d@);
    }
    true
}

/// The first position at or after `start` where the delimiter occurs.
fn find_delim(s: &Vec<u8>, d: &Vec<u8>, start: usize) -> (r: Option<usize>)
    requires
        d@.len() >= 1,
    ensures
        find_delimiter(s@, d@, start as nat) == (match r {
            Some(j) => Some(j as nat),
            None => None::<nat>,
        }),
{
    if d.len() > s.len() {
        return None;
    }
    let limit = s.len() - d.len();
    let mut k = start;
    while k <= limit
        invariant
            start <= k,
            d@.len() >= 1,
            s@.len() <= usize::MAX,
            limit == s@.len() - d@.len(),
            find_delimiter(s@, d@, start as nat) == find_delimiter(s@, d@, k as nat),
        decreases limit + 1 - k,
    {
        if is_match(s, d, k) {
            return Some(k);
        }
        k = k + 1;
    }
    None
}

/// Copies the bytes of `s` in positions `from` (inclusive) to `to`
/// (exclusive) into a fresh vector.
fn copy_range(s: &Vec<u8>, from: usize, to: usize) -> (r: Vec<u8>)
    requires
        from <= to <= s@.len(),
    ensures
        r@ == s@.subrange(from as int, to as int),
{
    let mut r: Vec<u8> = Vec::new();
    let mut k = from;
    while k < to
        invariant
            from <= k <= to <= s@.len(),
            r@ == s@.subrange(from as int, k as int),
        decreases to - k,
    {
        r.push(s[k]);
        proof {
            assert(r@ =~= s@.subrange(from as int, k + 1 as int));
        }
        k = k + 1;
    }
    r
}

/// Collects the plain-text run that begins at `start`, returning the run and
/// the position where it ends.
fn scan_range(s: &Vec<u8>, g: &GrammarConfig, start: usize) -> (r: (Vec<u8>, usize))
    requires
        start <= s@.len(),
    ensures
        r.0@ == scan_run(s@, g@, start as nat).0,
        r.1 as nat == scan_run(s@, g@, start as nat).1,
{
    let slen = s.len();
    let mut run: Vec<u8> = Vec::new();
    let mut k = start;
    proof {
        assert(run@ + scan_run(s@, g@, start as nat).0 =~= scan_run(s@, g@, start as nat).0);
    }
    while k < s.len()
        invariant
            start <= k <= s@.len(),
            slen == s@.len(),
            scan_run(s@, g@, start as nat).0 == run@ + scan_run(s@, g@, k as nat).0,
            scan_run(s@, g@, start as nat).1 == scan_run(s@, g@, k as nat).1,
        decreases s@.len() - k,
    {
        if is_match(s, &g.delimiter, k) {
            proof {
                assert(run@ + scan_run(s@, g@, k as nat).0 =~= run@);
            }
            return (run, k);
        }
        let b = s[k];
        let is_esc = match g.escape {
            Some(e) => b == e,
            None => false,
        };
        let ghost old_run = run@;
        let ghost old_k = k as nat;
        if is_esc && k + 1 < s.len() {
            run.push(s[k + 1]);
            k = k + 2;
        } else {
            run.push(b);
            k = k + 1;
        }
        proof {
            let stepped = scan_run(s@, g@, k as nat);
            assert(scan_run(s@, g@, old_k).0 =~= seq![run@[run@.len() - 1]] + stepped.0);
            assert(old_run + (seq![run@[run@.len() - 1]] + stepped.0) =~= run@ + stepped.0);
        }
    }
    proof {
        assert(run@ + scan_run(s@, g@, k as nat).0 =~= run@);
    }
    (run, k)
}

} // verus!
