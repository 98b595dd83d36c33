//! The values of a function.
use vstd::prelude::*;

use crate::ir::value::ValueId;

verus! {

/// The values of a function, each held as the text by which the assembly
/// writes it where it is used as an operand (such as `%I3` or `2`).
pub struct Data {
    values: Vec<String>,
}

impl View for Data {
    type V = Seq<Seq<char>>;

    closed spec fn view(&self) -> Seq<Seq<char>> {
        self.values@.map_values(|s: String| s@)
    }
}

impl Data {
    /// A table whose entry `i` is the value written `values[i]`.
    pub fn new(values: Vec<String>) -> (data: Self)
        ensures
            data@ == values@.map_values(|s: String| s@),
    {
        Data { values }
    }

    /// Whether `v` designates a value of this function.
    pub open spec fn contains(&self, v: ValueId) -> bool {
        v.spec_index() < self@.len()
    }

    /// The text of the value that `v` designates.
    pub open spec fn spec_text(&self, v: ValueId) -> Seq<char> {
        self@[v.spec_index() as int]
    }

    /// The text of the value that `v` designates, as an operand.
    pub fn value_text(&self, v: ValueId) -> (s: String)
        requires
            self.contains(v),
        ensures
            s@ == self.spec_text(v),
    {
        self.values[v.index()].clone()
    }
}

/// A table built from a list of texts holds, for each id within the list,
/// the text at the id's position, and nothing past the list's end.
pub proof fn lemma_data_entry_is_listed_text(texts: Seq<String>, data: Data, v: ValueId)
    requires
        data@ == texts.map_values(|s: String| s@),
    ensures
        data.contains(v) <==> v.spec_index() < texts.len(),
        v.spec_index() < texts.len() ==> data.spec_text(v) == texts[v.spec_index() as int]@,
{
}

} // verus!
