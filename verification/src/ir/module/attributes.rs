//! Function attributes.
use vstd::prelude::*;

verus! {

/// A function attribute (such as `nounwind`), held as the assembly writes it.
#[derive(Clone, Debug, PartialEq, Eq)]
pub struct Attribute(pub String);

} // verus!
