//! Formatter sets: the per-document-type table that maps each element kind
//! to a rendering strategy.

use vstd::prelude::*;

use crate::elements::{ElementView, Elements};
use crate::errors::FormatterError;

verus! {

/// One rendering strategy: the rendered form of an element is its payload
/// wrapped between fixed prefix and suffix bytes. The identity transform is
/// the strategy with empty prefix and suffix.
pub struct RenderStrategy {
    pub prefix: Vec<u8>,
    pub suffix: Vec<u8>,
}

/// The mathematical shape of a rendering strategy.
pub ghost struct RenderStrategyView {
    pub prefix: Seq<u8>,
    pub suffix: Seq<u8>,
}

impl View for RenderStrategy {
    type V = RenderStrategyView;

    open spec fn view(&self) -> RenderStrategyView {
        RenderStrategyView { prefix: self.prefix@, suffix: self.suffix@ }
    }
}

/// What a strategy renders a payload to.
pub open spec fn spec_wrap(st: RenderStrategyView, payload: Seq<u8>) -> Seq<u8> {
    st.prefix + payload + st.suffix
}

/// A table of rendering strategies, keyed by element variant. A variant with
/// no strategy is a configuration defect, reported at format time.
pub struct FormatterSet {
    pub text: Option<RenderStrategy>,
    pub bold: Option<RenderStrategy>,
}

/// The mathematical shape of a formatter set.
pub ghost struct FormatterSetView {
    pub text: Option<RenderStrategyView>,
    pub bold: Option<RenderStrategyView>,
}

impl View for FormatterSet {
    type V = FormatterSetView;

    open spec fn view(&self) -> FormatterSetView {
        FormatterSetView {
            text: match self.text {
                Some(st) => Some(st@),
                None => None,
            },
            bold: match self.bold {
                Some(st) => Some(st@),
                None => None,
            },
        }
    }
}

/// What rendering one element under a formatter set yields: the payload
/// wrapped by the strategy for the element's variant, or an error when the
/// set has no strategy for that variant.
pub open spec fn spec_render(fs: FormatterSetView, e: ElementView) -> Result<
    Seq<u8>,
    FormatterError,
> {
    match e {
        ElementView::Text { text } => match fs.text {
            Some(st) => Ok(spec_wrap(st, text)),
            None => Err(FormatterError::UnsupportedElement),
        },
        ElementView::BoldText { text } => match fs.bold {
            Some(st) => Ok(spec_wrap(st, text)),
            None => Err(FormatterError::UnsupportedElement),
        },
    }
}

impl RenderStrategy {
    /// Builds a strategy from its prefix and suffix bytes.
    pub fn new(prefix: Vec<u8>, suffix: Vec<u8>) -> (st: RenderStrategy)
        ensures
            st@ == (RenderStrategyView { prefix: prefix@, suffix: suffix@ }),
    {
        RenderStrategy { prefix, suffix }
    }

    /// The identity strategy: it renders a payload to the payload itself.
    pub fn identity() -> (st: RenderStrategy)
        ensures
            st@ == (RenderStrategyView { prefix: Seq::<u8>::empty(), suffix: Seq::<u8>::empty() }),
            forall|payload: Seq<u8>| spec_wrap(st@, payload) == payload,
    {
        let st = RenderStrategy { prefix: Vec::new(), suffix: Vec::new() };
        proof {
            assert forall|payload: Seq<u8>| spec_wrap(st@, payload) == payload by {
                assert(spec_wrap(st@, payload) =~= payload);
            }
        }
        st
    }

    /// Copies this strategy, yielding an independently owned one with the
    /// same prefix and suffix.
    pub fn duplicate(&self) -> (st: RenderStrategy)
        ensures
            st@ == self@,
    {
        RenderStrategy {
            prefix: crate::elements::copy_bytes(&self.prefix),
            suffix: crate::elements::copy_bytes(&self.suffix),
        }
    }
}

impl FormatterSet {
    /// Builds a formatter set from the strategies for each element variant.
    pub fn new(text: Option<RenderStrategy>, bold: Option<RenderStrategy>) -> (fs: FormatterSet)
        ensures
            fs.text == text,
            fs.bold == bold,
    {
        FormatterSet { text, bold }
    }

    /// Renders one element: wraps its payload with the strategy registered
    /// for its variant, or fails when no strategy is registered for it.
    pub fn render(&self, element: &Elements) -> (r: Result<Vec<u8>, FormatterError>)
        ensures
            match r {
                Ok(b) => spec_render(self@, element@) == Ok::<Seq<u8>, FormatterError>(b@),
                Err(e) => spec_render(self@, element@) == Err::<Seq<u8>, FormatterError>(e),
            },
    {
        match element {
            Elements::Text { text } => match &self.text {
                Some(st) => Ok(wrap_payload(st, text)),
                None => Err(FormatterError::UnsupportedElement),
            },
            Elements::BoldText { text } => match &self.bold {
                Some(st) => Ok(wrap_payload(st, text)),
                None => Err(FormatterError::UnsupportedElement),
            },
        }
    }

    /// Copies this formatter set, yielding an independently owned one with
    /// the same strategies.
    pub fn duplicate(&self) -> (fs: FormatterSet)
        ensures
            fs@ == self@,
    {
        FormatterSet {
            text: match &self.text {
                Some(st) => Some(st.duplicate()),
                None => None,
            },
            bold: match &self.bold {
                Some(st) => Some(st.duplicate()),
                None => None,
            },
        }
    }
}

/// Wraps a payload between a strategy's prefix and suffix bytes.
fn wrap_payload(st: &RenderStrategy, payload: &Vec<u8>) -> (r: Vec<u8>)
    ensures
        r@ == spec_wrap(st@, payload@),
{
    let mut r: Vec<u8> = Vec::new();
    crate::elements::push_bytes(&mut r, &st.prefix);
    crate::elements::push_bytes(&mut r, payload);
    crate::elements::push_bytes(&mut r, &st.suffix);
    proof {
        assert(r@ =~= spec_wrap(st@, payload@));
    }
    r
}

} // verus!
