//! The shared rendering capability: every information record can produce a
//! textual report at a given detail tier, and rendering never fails.
use vstd::prelude::*;

verus! {

use crate::args::DisplayStyle;

/// The rendering contract that every information record implements: the
/// specification function pins down the exact text of the report at each
/// tier, and `get_info` returns exactly that text.
pub trait Component {
    /// The characters of the report at the given tier.
    spec fn spec_info(&self, style: DisplayStyle) -> Seq<char>;

    /// Renders the report at the given tier.
    fn get_info(&self, style: DisplayStyle) -> (r: String)
        ensures
            r@ == self.spec_info(style),
    ;
}

} // verus!
