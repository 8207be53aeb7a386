//! The element model: the closed tagged union of content units that the
//! parser produces and the formatter consumes.

use vstd::prelude::*;

verus! {

/// A parsed content unit. Each variant owns its byte payload; the bytes are
/// treated as opaque (not assumed to be validly encoded text) so that
/// binary-safe round-tripping is possible.
#[derive(Debug, Eq, Hash)]
pub enum Elements {
    /// A literal run of source bytes, free of markup.
    Text { text: Vec<u8> },
    /// A run that the source grammar marked as bold.
    BoldText { text: Vec<u8> },
}

/// The mathematical shape of an element: a tag together with the byte
/// sequence it carries.
pub ghost enum ElementView {
    Text { text: Seq<u8> },
    BoldText { text: Seq<u8> },
}

impl View for Elements {
    type V = ElementView;

    open spec fn view(&self) -> ElementView {
        match self {
            Elements::Text { text } => ElementView::Text { text: text@ },
            Elements::BoldText { text } => ElementView::BoldText { text: text@ },
        }
    }
}

/// The mathematical shape of a sequence of elements.
pub open spec fn elems_view(es: Seq<Elements>) -> Seq<ElementView> {
    es.map_values(|e: Elements| e@)
}

/// Appends the bytes of `src` to the end of `dst`.
pub fn push_bytes(dst: &mut Vec<u8>, src: &Vec<u8>)
    ensures
        final(dst)@ == old(dst)@ + src@,
{
    let mut i: usize = 0;
    proof {
        assert(dst@ =~= dst@ + src@.subrange(0, 0));
    }
    while i < src.len()
        invariant
            i <= src.len(),
            dst@ == old(dst)@ + src@.subrange(0, i as int),
        decreases src.len() - i,
    {
        dst.push(src[i]);
        proof {
            assert(old(dst)@ + src@.subrange(0, i as int) + seq![src@[i as int]] =~= old(dst)@
                + src@.subrange(0, i + 1));
        }
        i = i + 1;
    }
    proof {
        assert(old(dst)@ + src@.subrange(0, src@.len() as int) =~= old(dst)@ + src@);
    }
}

/// Copies a byte vector, yielding an independently owned vector with the
/// same contents.
pub fn copy_bytes(src: &Vec<u8>) -> (r: Vec<u8>)
    ensures
        r@ == src@,
{
    let mut r: Vec<u8> = Vec::new();
    push_bytes(&mut r, src);
    proof {
        assert(Seq::<u8>::empty() + src@ =~= src@);
    }
    r
}

/// Compares two byte vectors for equality of their contents.
pub fn bytes_eq(a: &Vec<u8>, b: &Vec<u8>) -> (r: bool)
    ensures
        r == (a@ == b@),
{
    if a.len() != b.len() {
        return false;
    }
    let mut i: usize = 0;
    while i < a.len()
        invariant
            i <= a.len(),
            a.len() == b.len(),
            forall|j: int| 0 <= j < i ==> a@[j] == b@[j],
        decreases a.len() - i,
    {
        if a[i] != b[i] {
            return false;
        }
        i = i + 1;
    }
    proof {
        assert(a@ =~= b@);
    }
    true
}

impl PartialEq for Elements {
    /// Structural equality: same variant tag and same payload bytes.
    fn eq(&self, other: &Elements) -> (r: bool) {
        match (self, other) {
            (Elements::Text { text: a }, Elements::Text { text: b }) => bytes_eq(a, b),
            (Elements::BoldText { text: a }, Elements::BoldText { text: b }) => bytes_eq(a, b),
            _ => false,
        }
    }
}

impl vstd::std_specs::cmp::PartialEqSpecImpl for Elements {
    open spec fn obeys_eq_spec() -> bool {
        true
    }

    open spec fn eq_spec(&self, other: &Elements) -> bool {
        self@ == other@
    }
}

} // verus!
