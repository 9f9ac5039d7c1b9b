//! Errors of the library.
use vstd::prelude::*;

verus! {

/// What can go wrong in hashing to the curve or committing.
#[derive(Clone, Copy, Debug, PartialEq, Eq, Structural)]
pub enum Error {
    /// A map met a zero to invert or a non-square to take the root of.
    HashFailed,
    /// A commitment was asked for more values than there are generators.
    CommitmentTooLong,
}

} // verus!
