//! The formatter: renders an element sequence through a formatter set,
//! concatenating the results in source order and wrapping them with the
//! document type's framing bytes.

use vstd::prelude::*;

use crate::doc_type::DocType;
use crate::elements::{elems_view, ElementView, Elements};
use crate::errors::FormatterError;
use crate::formatter_set::{spec_render, FormatterSet, FormatterSetView};

verus! {

/// The preamble and postamble bytes a document type requires around the
/// rendered body. Every currently registered target format needs none.
pub open spec fn framing_of(doc_type: DocType) -> (Seq<u8>, Seq<u8>) {
    match doc_type {
        DocType::Plain => (Seq::<u8>::empty(), Seq::<u8>::empty()),
        DocType::Tagged => (Seq::<u8>::empty(), Seq::<u8>::empty()),
    }
}

/// What rendering a sequence of elements under a formatter set yields: the
/// concatenation, in order, of the rendering of each element, or the first
/// error. Output byte order mirrors element order exactly.
pub open spec fn spec_format_elements(fs: FormatterSetView, elems: Seq<ElementView>) -> Result<
    Seq<u8>,
    FormatterError,
>
    decreases elems.len(),
{
    if elems.len() == 0 {
        Ok(Seq::<u8>::empty())
    } else {
        match spec_render(fs, elems[0]) {
            Ok(first) => match spec_format_elements(fs, elems.drop_first()) {
                Ok(rest) => Ok(first + rest),
                Err(e) => Err(e),
            },
            Err(e) => Err(e),
        }
    }
}

/// The mathematical shape of a formatter.
pub ghost struct FormatterView {
    pub doc_type: DocType,
    pub formatter_set: FormatterSetView,
    pub preamble: Seq<u8>,
    pub postamble: Seq<u8>,
}

/// What a formatter produces for an element sequence: the rendered body
/// between the formatter's preamble and postamble, or the first rendering
/// error.
pub open spec fn spec_format(f: FormatterView, elems: Seq<ElementView>) -> Result<
    Seq<u8>,
    FormatterError,
> {
    match spec_format_elements(f.formatter_set, elems) {
        Ok(body) => Ok(f.preamble + body + f.postamble),
        Err(e) => Err(e),
    }
}

/// A configured formatter: the document type it serves, the formatter set
/// bound for that type, and the type's framing bytes.
pub struct Formatter {
    pub doc_type: DocType,
    pub formatter_set: FormatterSet,
    pub preamble: Vec<u8>,
    pub postamble: Vec<u8>,
}

impl View for Formatter {
    type V = FormatterView;

    open spec fn view(&self) -> FormatterView {
        FormatterView {
            doc_type: self.doc_type,
            formatter_set: self.formatter_set@,
            preamble: self.preamble@,
            postamble: self.postamble@,
        }
    }
}

impl Formatter {
    /// Builds a formatter for the given document type around the given
    /// formatter set, with the framing the document type requires.
    pub fn new(doc_type: DocType, formatter_set: FormatterSet) -> (f: Formatter)
        ensures
            f@.doc_type == doc_type,
            f@.formatter_set == formatter_set@,
            (f@.preamble, f@.postamble) == framing_of(doc_type),
    {
        let f = Formatter {
            doc_type,
            formatter_set,
            preamble: Vec::new(),
            postamble: Vec::new(),
        };
        proof {
            assert((f@.preamble, f@.postamble) =~= framing_of(doc_type));
        }
        f
    }

    /// The document type this formatter is for.
    pub fn get_type(&self) -> (t: &DocType)
        ensures
            t == self@.doc_type,
    {
        &self.doc_type
    }

    /// The formatter set this formatter renders with.
    pub fn get_formatter_set(&self) -> (fs: &FormatterSet)
        ensures
            fs@ == self@.formatter_set,
    {
        &self.formatter_set
    }

    /// Renders the elements in order, concatenates the results and wraps
    /// them in the document type's framing. Fails when some element's
    /// variant has no strategy in the bound formatter set; no partial output
    /// is produced.
    pub fn format(&self, elements: &Vec<Elements>) -> (r: Result<Vec<u8>, FormatterError>)
        ensures
            match r {
                Ok(out) => spec_format(self@, elems_view(elements@)) == Ok::<Seq<u8>, FormatterError>(
                    out@,
                ),
                Err(e) => spec_format(self@, elems_view(elements@)) == Err::<Seq<u8>, FormatterError>(
                    e,
                ),
            },
    {
        let ghost all = elems_view(elements@);
        let mut body: Vec<u8> = Vec::new();
        let mut i: usize = 0;
        proof {
            assert(elems_view(elements@).skip(0) =~= all);
        }
        while i < elements.len()
            invariant
                i <= elements.len(),
                all == elems_view(elements@),
                match spec_format_elements(self@.formatter_set, all.skip(i as int)) {
                    Ok(rest) => spec_format_elements(self@.formatter_set, all) == Ok::<
                        Seq<u8>,
                        FormatterError,
                    >(body@ + rest),
                    Err(e) => spec_format_elements(self@.formatter_set, all) == Err::<
                        Seq<u8>,
                        FormatterError,
                    >(e),
                },
            decreases elements.len() - i,
        {
            proof {
                assert(all.skip(i as int).len() > 0);
                assert(all.skip(i as int)[0] == elements@[i as int]@);
                assert(all.skip(i as int).drop_first() =~= all.skip(i + 1));
            }
            match self.formatter_set.render(&elements[i]) {
                Ok(rendered) => {
                    let ghost old_body = body@;
                    crate::elements::push_bytes(&mut body, &rendered);
                    proof {
                        match spec_format_elements(self@.formatter_set, all.skip(i + 1)) {
                            Ok(rest) => {
                                assert(old_body + (rendered@ + rest) =~= body@ + rest);
                            },
                            Err(_) => {},
                        }
                    }
                },
                Err(e) => {
                    return Err(e);
                },
            }
            i = i + 1;
        }
        proof {
            assert(all.skip(i as int) =~= Seq::<ElementView>::empty());
            assert(body@ + Seq::<u8>::empty() =~= body@);
        }
        let mut out: Vec<u8> = Vec::new();
        crate::elements::push_bytes(&mut out, &self.preamble);
        crate::elements::push_bytes(&mut out, &body);
        crate::elements::push_bytes(&mut out, &self.postamble);
        proof {
            assert(out@ =~= self@.preamble + body@ + self@.postamble);
        }
        Ok(out)
    }
}

} // verus!
