use vstd::prelude::*;

pub mod engine;
pub mod laws;
pub mod scalar;

verus! {

/// Error raised when the scalar type's arithmetic cannot represent a result.
#[derive(Debug, Clone, Copy, PartialEq, Eq)]
pub struct ArithmeticError;

} // verus!
