//! The failures a store operation can report.

use vstd::prelude::*;

verus! {

/// Why a store operation failed.
#[derive(Clone, Copy, Debug, PartialEq, Eq, Structural)]
pub enum StoreError {
    /// The file could not be read, written or removed.
    Io,
    /// The record could not be turned into file content.
    Encoding,
    /// The file holds content that is not a stored record.
    Decoding,
}

impl StoreError {
    /// A short description of the failure, for messages.
    pub fn message(&self) -> (text: &'static str)
        ensures
            text@ == match *self {
                StoreError::Io => "file could not be accessed"@,
                StoreError::Encoding => "record could not be encoded"@,
                StoreError::Decoding => "file content is not a stored record"@,
            },
    {
        match self {
            StoreError::Io => "file could not be accessed",
            StoreError::Encoding => "record could not be encoded",
            StoreError::Decoding => "file content is not a stored record",
        }
    }
}

} // verus!
