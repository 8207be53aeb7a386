//! Grammar configuration: the delimiter and escape rules the parser uses for
//! one document type.

use vstd::prelude::*;

verus! {

/// The markup rules for one document type: the byte subsequence that opens
/// and closes a bold span, and an optional escape byte. When the escape byte
/// is present in the input (and is not itself the start of a delimiter), the
/// byte after it is taken as literal content.
pub struct GrammarConfig {
    pub delimiter: Vec<u8>,
    pub escape: Option<u8>,
}

/// The mathematical shape of a grammar configuration.
pub ghost struct GrammarView {
    pub delimiter: Seq<u8>,
    pub escape: Option<u8>,
}

impl View for GrammarConfig {
    type V = GrammarView;

    open spec fn view(&self) -> GrammarView {
        GrammarView { delimiter: self.delimiter@, escape: self.escape }
    }
}

impl GrammarView {
    /// A usable grammar has a non-empty delimiter.
    pub open spec fn wf(self) -> bool {
        self.delimiter.len() >= 1
    }
}

impl GrammarConfig {
    /// Builds a grammar from its delimiter bytes and optional escape byte.
    pub fn new(delimiter: Vec<u8>, escape: Option<u8>) -> (g: GrammarConfig)
        requires
            delimiter@.len() >= 1,
        ensures
            g@ == (GrammarView { delimiter: delimiter@, escape }),
            g@.wf(),
    {
        GrammarConfig { delimiter, escape }
    }

    /// Copies this grammar, yielding an independently owned configuration
    /// with the same rules.
    pub fn duplicate(&self) -> (g: GrammarConfig)
        ensures
            g@ == self@,
    {
        GrammarConfig {
            delimiter: crate::elements::copy_bytes(&self.delimiter),
            escape: self.escape,
        }
    }
}

} // verus!
