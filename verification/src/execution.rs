//! Outcome of a transaction as it is reported to whoever runs it.

use vstd::prelude::*;

verus! {

/// Why a transaction was refused.
#[derive(Debug, PartialEq, Eq)]
pub struct ExecutionError {
    /// Code of the error within the service that refused the transaction.
    pub code: u8,
    /// Description of the error.
    pub description: Option<String>,
}

impl ExecutionError {
    /// Makes an error with a code alone.
    pub fn new(code: u8) -> (error: Self)
        ensures
            error.code == code,
            error.description is None,
    {
        ExecutionError { code, description: None }
    }

    /// Makes an error with a code and a description.
    pub fn with_description(code: u8, description: String) -> (error: Self)
        ensures
            error.code == code,
            error.description == Some(description),
    {
        ExecutionError { code, description: Some(description) }
    }
}

} // verus!
