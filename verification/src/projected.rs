//! Data read through the object that owns it.
use vstd::prelude::*;

verus! {

/// A value of type `T` that belongs to an owner of type `G`.
#[derive(Clone)]
pub struct Projected<G, T> {
    owner: G,
    data: T,
}

impl<G, T> Projected<G, T> {
    /// The value `data` that belongs to `owner`.
    pub fn new(owner: G, data: T) -> (r: Self)
        ensures
            r.owner_spec() == owner,
            r.data_spec() == data,
    {
        Self { owner, data }
    }

    /// The owner.
    pub closed spec fn owner_spec(&self) -> G {
        self.owner
    }

    /// The value.
    pub closed spec fn data_spec(&self) -> T {
        self.data
    }

    /// The owner.
    pub fn owner(&self) -> (r: &G)
        ensures
            *r == self.owner_spec(),
    {
        &self.owner
    }

    /// The value.
    pub fn get(&self) -> (r: &T)
        ensures
            *r == self.data_spec(),
    {
        &self.data
    }
}

} // verus!
