//! The ways in which an operation on to-do items can fail.

use vstd::prelude::*;

verus! {

/// Why an operation was refused or could not be carried out.
#[derive(Clone, Copy, Debug, PartialEq, Eq, Structural)]
pub enum ServiceError {
    /// The payload failed validation: the title is empty or missing.
    InvalidInput,
    /// The identifier is not twenty-four hexadecimal digits.
    InvalidIdentifier,
    /// The identifier is well formed, but the store holds no item under it.
    NotFound,
    /// The store could not carry out the operation.
    StorageFailure,
}

} // verus!
