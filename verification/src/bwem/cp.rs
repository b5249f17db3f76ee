//! Choke points: the nodes that a path through a choke point passes.
use vstd::prelude::*;

verus! {

/// The nodes of a choke point: its two ends and its middle; `NodeCount` is their number.
#[derive(Clone, Copy, Debug, PartialEq, Eq, Structural)]
pub enum Node {
    End1,
    Middle,
    End2,
    NodeCount,
}

} // verus!
