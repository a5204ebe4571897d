//! Errors of the time service.

use vstd::prelude::*;

use crate::execution::ExecutionError;

verus! {

/// Common errors emitted by transactions during execution.
#[derive(Clone, Copy, Debug, PartialEq, Eq, Structural)]
pub enum Error {
    /// The sender of the transaction is not among the active validators.
    UnknownSender,
    /// The validator time that is stored in storage is greater than the proposed one.
    ValidatorTimeIsGreater,
}

impl Error {
    /// Code of the error: its position in the list of errors.
    pub open spec fn number(self) -> u8 {
        match self {
            Error::UnknownSender => 0,
            Error::ValidatorTimeIsGreater => 1,
        }
    }

    /// Description of the error.
    pub open spec fn text(self) -> Seq<char> {
        match self {
            Error::UnknownSender => "Not authored by a validator"@,
            Error::ValidatorTimeIsGreater => "The validator time is greater than the proposed one"@,
        }
    }

    /// Returns the code of the error.
    pub fn code(self) -> (code: u8)
        ensures
            code == self.number(),
    {
        match self {
            Error::UnknownSender => 0,
            Error::ValidatorTimeIsGreater => 1,
        }
    }

    /// Returns the description of the error.
    pub fn description(self) -> (description: String)
        ensures
            description@ == self.text(),
    {
        match self {
            Error::UnknownSender => "Not authored by a validator".to_owned(),
            Error::ValidatorTimeIsGreater => {
                "The validator time is greater than the proposed one".to_owned()
            },
        }
    }
}

impl From<Error> for ExecutionError {
    fn from(value: Error) -> (error: ExecutionError)
        ensures
            error == (ExecutionError { code: value.number(), description: None }),
    {
        ExecutionError::new(value.code())
    }
}

impl vstd::std_specs::convert::FromSpecImpl<Error> for ExecutionError {
    open spec fn obeys_from_spec() -> bool {
        true
    }

    open spec fn from_spec(value: Error) -> ExecutionError {
        ExecutionError { code: value.number(), description: None }
    }
}

} // verus!
