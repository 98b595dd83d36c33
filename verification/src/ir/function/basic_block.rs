//! Basic blocks, referred to by id.
use vstd::prelude::*;

verus! {

/// Refers to a basic block of a function.
#[derive(Clone, Copy, Debug, PartialEq, Eq, Hash, Structural)]
pub struct BasicBlockId {
    index: usize,
}

impl BasicBlockId {
    /// The position that the id designates in its table.
    pub closed spec fn spec_index(&self) -> nat {
        self.index as nat
    }

    /// The id of the entry at position `index`.
    pub fn new(index: usize) -> (id: Self)
        ensures
            id.spec_index() == index,
    {
        BasicBlockId { index }
    }

    /// The position that the id designates in its table.
    pub fn index(&self) -> (r: usize)
        ensures
            r == self.spec_index(),
    {
        self.index
    }
}

} // verus!
