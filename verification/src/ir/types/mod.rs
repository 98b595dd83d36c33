//! Types of the intermediate representation, referred to by id.
use vstd::prelude::*;

verus! {

/// Refers to a type held in a `Types` table.
#[derive(Clone, Copy, Debug, PartialEq, Eq, Hash, Structural)]
pub struct TypeId {
    index: usize,
}

impl TypeId {
    /// The position that the id designates in its table.
    pub closed spec fn spec_index(&self) -> nat {
        self.index as nat
    }

    /// The id of the entry at position `index`.
    pub fn new(index: usize) -> (id: Self)
        ensures
            id.spec_index() == index,
    {
        TypeId { index }
    }

    /// The position that the id designates in its table.
    pub fn index(&self) -> (r: usize)
        ensures
            r == self.spec_index(),
    {
        self.index
    }
}

/// The table of the types of a module, each held as the text by which the
/// assembly writes it (such as `i32` or `i32*`).
pub struct Types {
    names: Vec<String>,
}

impl View for Types {
    type V = Seq<Seq<char>>;

    closed spec fn view(&self) -> Seq<Seq<char>> {
        self.names@.map_values(|s: String| s@)
    }
}

impl Types {
    /// A table whose entry `i` is the type written `names[i]`.
    pub fn new(names: Vec<String>) -> (types: Self)
        ensures
            types@ == names@.map_values(|s: String| s@),
    {
        Types { names }
    }

    /// Whether `ty` designates an entry of this table.
    pub open spec fn contains(&self, ty: TypeId) -> bool {
        ty.spec_index() < self@.len()
    }

    /// The text of the type that `ty` designates.
    pub open spec fn spec_text(&self, ty: TypeId) -> Seq<char> {
        self@[ty.spec_index() as int]
    }

    /// The text of the type that `ty` designates.
    pub fn to_string(&self, ty: TypeId) -> (s: String)
        requires
            self.contains(ty),
        ensures
            s@ == self.spec_text(ty),
    {
        self.names[ty.index()].clone()
    }
}

/// A table built from a list of texts holds, for each id within the list,
/// the text at the id's position, and nothing past the list's end.
pub proof fn lemma_types_entry_is_listed_text(texts: Seq<String>, types: Types, ty: TypeId)
    requires
        types@ == texts.map_values(|s: String| s@),
    ensures
        types.contains(ty) <==> ty.spec_index() < texts.len(),
        ty.spec_index() < texts.len() ==> types.spec_text(ty) == texts[ty.spec_index() as int]@,
{
}

} // verus!
