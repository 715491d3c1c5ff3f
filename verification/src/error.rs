//! The errors that describing a method can end in.
use vstd::prelude::*;

verus! {

/// A declaration that cannot be described or registered.
#[derive(Debug, Clone, Copy, PartialEq, Eq)]
pub enum UnsupportedShapeError {
    /// The argument at `position` is `self`.
    Receiver { position: usize },
    /// The pattern of the argument at `position` is no plain name.
    Pattern { position: usize },
    /// `found` schemas were handed over for `expected` described arguments.
    Schemas { expected: usize, found: usize },
    /// The function is declared fallible and does not return a `Result`.
    Fallible,
}

} // verus!
