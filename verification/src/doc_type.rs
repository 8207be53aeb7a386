//! Document types: one value per supported output target format.

use vstd::prelude::*;

verus! {

/// Identifies a registered target document format. `Plain` is the
/// pass-through rendering that reproduces the source markup; `Tagged` wraps
/// emphasized runs in tag pairs.
#[derive(Clone, Copy, Debug, PartialEq, Eq, Hash, Structural)]
pub enum DocType {
    Plain,
    Tagged,
}

} // verus!
