//! The failures that an entry point reports.

use vstd::prelude::*;

verus! {

/// The kind of record that a lookup was for.
#[derive(Clone, Copy, Debug, PartialEq, Eq, Structural)]
pub enum Record {
    /// The administrator record.
    Config,
    /// The record of one poll.
    Poll,
}

/// Why a call failed. A failed call leaves the store as it found it.
#[derive(Clone, Copy, Debug, PartialEq, Eq, Structural)]
pub enum ContractError {
    /// The administrator address was rejected by the address validator.
    InvalidAddress,
    /// A poll with this question exists already.
    DuplicateKey,
    /// A record that the call needs is not in the store.
    NotFound(Record),
    /// The vote is neither `yes` nor `no`.
    InvalidChoice,
    /// The store refused a write.
    StorageWriteFailure,
    /// A record is in the store but its bytes cannot be read back.
    StorageReadFailure,
}

impl ContractError {
    /// The message that describes this failure to a caller.
    pub open spec fn message_text(self) -> Seq<char> {
        match self {
            ContractError::InvalidAddress => "Invalid address"@,
            ContractError::DuplicateKey => "Key already taken"@,
            ContractError::NotFound(Record::Config) => "Config does not exist"@,
            ContractError::NotFound(Record::Poll) => "Poll does not exist"@,
            ContractError::InvalidChoice => "Unrecognised choice"@,
            ContractError::StorageWriteFailure => "Storage write failed"@,
            ContractError::StorageReadFailure => "Storage read failed"@,
        }
    }

    /// Returns the message that describes this failure.
    pub fn message(&self) -> (text: &'static str)
        ensures
            text@ == self.message_text(),
    {
        match self {
            ContractError::InvalidAddress => "Invalid address",
            ContractError::DuplicateKey => "Key already taken",
            ContractError::NotFound(Record::Config) => "Config does not exist",
            ContractError::NotFound(Record::Poll) => "Poll does not exist",
            ContractError::InvalidChoice => "Unrecognised choice",
            ContractError::StorageWriteFailure => "Storage write failed",
            ContractError::StorageReadFailure => "Storage read failed",
        }
    }
}

} // verus!
