//! Types that model the syntax tree of an IL4IL assembly program.
pub mod literal;
pub mod structure;
pub mod tree;

use vstd::prelude::*;
use std::ops::Range;

verus! {

/// A value together with the range of byte offsets of the source text that it comes from.
#[derive(Debug, Eq, PartialEq)]
pub struct Located<N> {
    pub node: N,
    pub offsets: Range<usize>,
}

impl<N: View> View for Located<N> {
    type V = (N::V, nat, nat);

    open spec fn view(&self) -> (N::V, nat, nat) {
        (self.node@, self.offsets.start as nat, self.offsets.end as nat)
    }
}

impl<N> Located<N> {
    /// Attaches the byte offsets to the value.
    pub fn new(node: N, offsets: Range<usize>) -> (r: Self)
        ensures
            r.node == node,
            r.offsets == offsets,
    {
        Located { node, offsets }
    }
}

} // verus!
