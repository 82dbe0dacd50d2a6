//! The ways an operation of this library fails.

use vstd::prelude::*;
use vstd::string::StringExecFns;

verus! {

/// Why the task store refused a write.
#[derive(Debug, Clone, PartialEq)]
pub enum StorageError {
    /// The record's key is already taken.
    DuplicateKey,
    /// Anything else, with what the store said.
    Other(String),
}

/// Why an operation failed.
#[derive(Debug, Clone, PartialEq)]
pub enum Error {
    /// No agent or task goes by this name.
    NotFound(String),
    /// The named agent is not one that the sender may hand over to.
    InvalidTransferTarget(String),
    /// Input did not match an advisory pattern.
    ValidationError(String),
    /// A tool was called with missing or invalid parameters.
    ToolError(String),
    /// The task store refused a write.
    StorageError(StorageError),
    /// An outside service was unreachable, timed out, or answered nonsense.
    ExternalServiceError(String),
}

/// The text of an error, as mathematical value.
pub open spec fn error_text(e: Error) -> Seq<char> {
    match e {
        Error::NotFound(name) => "not found: "@ + name@,
        Error::InvalidTransferTarget(name) => "Invalid transfer target: "@ + name@,
        Error::ValidationError(what) => "validation failed: "@ + what@,
        Error::ToolError(what) => "tool error: "@ + what@,
        Error::StorageError(StorageError::DuplicateKey) => "storage error: duplicate key"@,
        Error::StorageError(StorageError::Other(what)) => "storage error: "@ + what@,
        Error::ExternalServiceError(what) => "external service error: "@ + what@,
    }
}

impl Error {
    /// The error as text.
    pub fn message(&self) -> (r: String)
        ensures
            r@ == error_text(*self),
    {
        match self {
            Error::NotFound(name) => "not found: ".to_owned().concat(name.as_str()),
            Error::InvalidTransferTarget(name) => "Invalid transfer target: ".to_owned().concat(
                name.as_str(),
            ),
            Error::ValidationError(what) => "validation failed: ".to_owned().concat(what.as_str()),
            Error::ToolError(what) => "tool error: ".to_owned().concat(what.as_str()),
            Error::StorageError(StorageError::DuplicateKey) => "storage error: duplicate key"
                .to_owned(),
            Error::StorageError(StorageError::Other(what)) => "storage error: ".to_owned().concat(
                what.as_str(),
            ),
            Error::ExternalServiceError(what) => "external service error: ".to_owned().concat(
                what.as_str(),
            ),
        }
    }
}

} // verus!
