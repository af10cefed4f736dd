//! Errors.
use vstd::prelude::*;

verus! {

/// The library's error.
#[derive(Debug, Clone, Copy, PartialEq, Eq, Structural)]
pub enum Error {
    /// A Generation was requested with a width or a height below 3.
    InvalidDimensionError,
}

impl Error {
    /// Human readable description of the error.
    pub fn message(&self) -> (r: &'static str)
        ensures
            r@ == "Generation's width and height must be equal or greater than 3."@,
    {
        match self {
            Error::InvalidDimensionError => "Generation's width and height must be equal or greater than 3.",
        }
    }
}

} // verus!
