//! Names of values and blocks.
use vstd::prelude::*;

verus! {

/// The name of a local: `%foo` is `Name("foo")`, `%3` is `Number(3)`.
#[derive(Clone, Debug, PartialEq, Eq, Hash)]
pub enum Name {
    Name(String),
    Number(usize),
}

} // verus!
