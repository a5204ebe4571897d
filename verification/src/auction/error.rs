//! Errors of the auction service.

use vstd::prelude::*;

use crate::execution::ExecutionError;

verus! {

/// Error codes emitted by transactions during execution.
#[derive(Clone, Copy, Debug, PartialEq, Eq, Structural)]
pub enum Error {
    /// Participant is already registered.
    ParticipantAlreadyRegistered,
    /// Participant is not registered.
    ParticipantIsNotRegistered,
    /// Item doesn't exist.
    ItemNotFound,
    /// The item belongs to somebody else.
    ItemNotOwned,
    /// Auction does not exist.
    AuctionNotFound,
    /// Auction is closed.
    AuctionClosed,
    /// Bid is below the current highest bid.
    BidTooLow,
    /// Insufficient funds.
    InsufficientFunds,
}

impl Error {
    /// Code of the error: its position in the list of errors.
    pub open spec fn number(self) -> u8 {
        match self {
            Error::ParticipantAlreadyRegistered => 0,
            Error::ParticipantIsNotRegistered => 1,
            Error::ItemNotFound => 2,
            Error::ItemNotOwned => 3,
            Error::AuctionNotFound => 4,
            Error::AuctionClosed => 5,
            Error::BidTooLow => 6,
            Error::InsufficientFunds => 7,
        }
    }

    /// Description of the error.
    pub open spec fn text(self) -> Seq<char> {
        match self {
            Error::ParticipantAlreadyRegistered => "Participant is already registered"@,
            Error::ParticipantIsNotRegistered => "Participant is not registered"@,
            Error::ItemNotFound => "Item doesn't exist"@,
            Error::ItemNotOwned => "You do not own of the item"@,
            Error::AuctionNotFound => "Auction does not exist"@,
            Error::AuctionClosed => "Auction is closed"@,
            Error::BidTooLow => "Bid is below the current highest bid"@,
            Error::InsufficientFunds => "Insufficient funds"@,
        }
    }

    /// Returns the code of the error.
    pub fn code(self) -> (code: u8)
        ensures
            code == self.number(),
    {
        match self {
            Error::ParticipantAlreadyRegistered => 0,
            Error::ParticipantIsNotRegistered => 1,
            Error::ItemNotFound => 2,
            Error::ItemNotOwned => 3,
            Error::AuctionNotFound => 4,
            Error::AuctionClosed => 5,
            Error::BidTooLow => 6,
            Error::InsufficientFunds => 7,
        }
    }

    /// Returns the description of the error.
    pub fn description(self) -> (description: String)
        ensures
            description@ == self.text(),
    {
        match self {
            Error::ParticipantAlreadyRegistered => "Participant is already registered".to_owned(),
            Error::ParticipantIsNotRegistered => "Participant is not registered".to_owned(),
            Error::ItemNotFound => "Item doesn't exist".to_owned(),
            Error::ItemNotOwned => "You do not own of the item".to_owned(),
            Error::AuctionNotFound => "Auction does not exist".to_owned(),
            Error::AuctionClosed => "Auction is closed".to_owned(),
            Error::BidTooLow => "Bid is below the current highest bid".to_owned(),
            Error::InsufficientFunds => "Insufficient funds".to_owned(),
        }
    }
}

impl From<Error> for ExecutionError {
    fn from(value: Error) -> (error: ExecutionError)
        ensures
            error.code == value.number(),
            error.description is Some,
            error.description->0@ == value.text(),
    {
        ExecutionError::with_description(value.code(), value.description())
    }
}

impl vstd::std_specs::convert::FromSpecImpl<Error> for ExecutionError {
    open spec fn obeys_from_spec() -> bool {
        false
    }

    open spec fn from_spec(value: Error) -> ExecutionError {
        arbitrary()
    }
}

/// Different errors have different codes.
pub proof fn codes_are_distinct(a: Error, b: Error)
    requires
        a.number() == b.number(),
    ensures
        a == b,
{
}

} // verus!
