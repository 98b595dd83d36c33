//! Values of the intermediate representation, referred to by id.
use vstd::prelude::*;

verus! {

/// Refers to a value (an argument, a constant, the result of an instruction) held in a function's `Data`.
#[derive(Clone, Copy, Debug, PartialEq, Eq, Hash, Structural)]
pub struct ValueId {
    index: usize,
}

impl ValueId {
    /// The position that the id designates in its table.
    pub closed spec fn spec_index(&self) -> nat {
        self.index as nat
    }

    /// The id of the entry at position `index`.
    pub fn new(index: usize) -> (id: Self)
        ensures
            id.spec_index() == index,
    {
        ValueId { index }
    }

    /// The position that the id designates in its table.
    pub fn index(&self) -> (r: usize)
        ensures
            r == self.spec_index(),
    {
        self.index
    }
}

/// A constant operand, held as the text by which the assembly writes it.
#[derive(Clone, Debug, PartialEq, Eq)]
pub struct ConstantData {
    text: String,
}

impl View for ConstantData {
    type V = Seq<char>;

    closed spec fn view(&self) -> Seq<char> {
        self.text@
    }
}

impl ConstantData {
    /// The constant written `text`.
    pub fn new(text: String) -> (c: Self)
        ensures
            c@ == text@,
    {
        ConstantData { text }
    }

    /// The text of the constant.
    pub fn to_string(&self) -> (s: String)
        ensures
            s@ == self@,
    {
        self.text.clone()
    }
}

} // verus!
