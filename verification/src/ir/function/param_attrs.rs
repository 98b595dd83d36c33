//! Attributes of call parameters and results.
use vstd::prelude::*;

verus! {

/// An attribute of a parameter or a result (such as `noalias` or
/// `signext`), held as the assembly writes it.
#[derive(Clone, Debug, PartialEq, Eq)]
pub struct ParameterAttribute(pub String);

} // verus!
