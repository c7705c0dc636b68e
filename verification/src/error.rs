//! The failures a store operation can report.

use vstd::prelude::*;

verus! {

/// Why a store operation failed.
#[derive(Clone, Copy, Debug, PartialEq, Eq, Structural)]
pub enum StoreError {
    /// The storage endpoint could not be reached.
    ConnectionError,
    /// The store refused an insert, an update or a delete.
    WriteError,
    /// A stored document lacks a required field or holds a timestamp that
    /// cannot be read.
    DeserializationError,
}

impl StoreError {
    /// A short description for presenting the failure to a user.
    pub fn message(&self) -> (text: &'static str)
        ensures
            text@ == match *self {
                StoreError::ConnectionError => "the storage endpoint could not be reached"@,
                StoreError::WriteError => "the store rejected the write"@,
                StoreError::DeserializationError => "a stored document could not be read"@,
            },
    {
        match self {
            StoreError::ConnectionError => "the storage endpoint could not be reached",
            StoreError::WriteError => "the store rejected the write",
            StoreError::DeserializationError => "a stored document could not be read",
        }
    }
}

} // verus!
