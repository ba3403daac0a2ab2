//! Errors of the shim library.

use vstd::prelude::*;

verus! {

/// What can go wrong in the shim library.
#[derive(Debug, Clone, PartialEq, Eq)]
pub enum Error {
    /// An argument was refused; the text says which and why.
    InvalidArgument(String),
}

} // verus!
