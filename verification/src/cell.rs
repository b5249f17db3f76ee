//! A value paired with the value it was found through.
use vstd::prelude::*;

verus! {

/// An inner value together with the outer value that holds it.
pub struct Wrap<O, I> {
    pub outer: O,
    pub inner: I,
}

impl<O: Clone, I> Wrap<O, I> {
    /// Pairs `outer` with `inner`.
    pub fn new(outer: O, inner: I) -> (r: Self)
        ensures
            r.outer == outer,
            r.inner == inner,
    {
        Self { outer, inner }
    }
}

} // verus!
