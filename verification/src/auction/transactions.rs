//! Transactions of the auction service.
//!
//! Each transaction decides on the records that it reads (`register`, `create`,
//! `open`, `place`, `settle`) and is executed on the tables of the service
//! (`execute`).

use vstd::prelude::*;

use super::data::{Auction, Bid, Item, ItemView, Participant};
use super::error::Error;
use super::ledger::{
    bid_adds_up, bid_refusal, closing_adds_up, closing_refusal, item_refusal, leads, opened,
    opening_refusal, registered, registration_refusal, Ledger, INIT_BALANCE,
};
use super::schema::{record, AuctionSchema};
use crate::crypto::PublicKey;

verus! {

/// Transaction type for adding a new participant.
#[derive(Debug)]
pub struct TxNewParticipant {
    /// Public key of the participant.
    pub pub_key: PublicKey,
    /// UTF-8 string with the participant's name.
    pub name: String,
}

/// Transaction type for adding a new item.
#[derive(Debug)]
pub struct TxNewItem {
    /// Creator/Owner of the item.
    pub owner_key: PublicKey,
    /// Description of the item.
    pub desc: String,
    /// URL of the item's image.
    pub url: String,
}

/// Transaction type for opening an auction.
#[derive(Debug)]
pub struct TxNewAuction {
    /// Auctioner of the item.
    pub auctioner_key: PublicKey,
    /// ID of the item to auction.
    pub item_id: u64,
    /// Starting price of the item.
    pub start_price: u64,
}

/// Transaction type for bidding in an auction.
#[derive(Debug)]
pub struct TxBid {
    /// Bidder.
    pub bidder_key: PublicKey,
    /// Auction ID where a bid must be made.
    pub auction_id: u64,
    /// Bid value.
    pub value: u64,
}

/// Transaction type for closing an auction.
#[derive(Debug)]
pub struct TxCloseAuction {
    /// Auction to close.
    pub auction_id: u64,
}

/// A participant together with the key under which they are stored.
#[derive(Debug)]
pub struct Posting {
    /// Key in the table of participants.
    pub key: PublicKey,
    /// The participant.
    pub participant: Participant,
}

/// Records that an accepted bid writes.
#[derive(Debug)]
pub struct PlacedBid {
    /// The auction with the bid.
    pub auction: Auction,
    /// The participant who was outbid, under the key of their bid, unless it was the
    /// bidder's own.
    pub outbid: Option<Posting>,
    /// The bidder.
    pub bidder: Participant,
}

/// Records that the payment for an auction writes, the winner's last.
#[derive(Debug)]
pub struct Payment {
    /// The auctioner, under the key that the auction has for them.
    pub auctioner: Posting,
    /// The winner, under the key of their bid.
    pub winner: Posting,
}

/// Records that closing an auction writes.
#[derive(Debug)]
pub struct Settlement {
    /// The closed auction.
    pub auction: Auction,
    /// The payment, if anybody made a bid.
    pub payment: Option<Payment>,
}

/// Tells whether a transaction ended as it should: with the error, if it is to be
/// refused, and the state as it was; else with the state that it is to reach.
pub open spec fn ends_as(
    step: Result<Ledger, Error>,
    before: Ledger,
    after: Ledger,
    result: Result<(), Error>,
) -> bool {
    match step {
        Ok(next) => result is Ok && after == next,
        Err(error) => result == Err::<(), Error>(error) && after == before,
    }
}

impl TxNewParticipant {
    /// Key with which the transaction has to be signed: that of the participant.
    pub fn signer(&self) -> (key: &PublicKey)
        ensures
            *key == self.pub_key,
    {
        &self.pub_key
    }

    /// Verifies integrity of the transaction, given whether its signature was found to be
    /// that of the [`signer`](TxNewParticipant::signer).
    pub fn verify(&self, signed: bool) -> (correct: bool)
        ensures
            correct == signed,
    {
        signed
    }

    /// Decides on the registration, given who has the key already.
    pub fn register(&self, known: Option<Participant>) -> (result: Result<Participant, Error>)
        ensures
            match registration_refusal(record(known)) {
                Some(error) => result == Err::<Participant, Error>(error),
                None => result is Ok && result->Ok_0@ == registered(self.pub_key, self.name@),
            },
    {
        match known {
            Some(_) => Err(Error::ParticipantAlreadyRegistered),
            None => Ok(Participant::new(&self.pub_key, self.name.as_str(), INIT_BALANCE, 0)),
        }
    }

    /// If no participant with the specified public key is registered, adds a participant
    /// with the specified public key, name, and an initial balance of [`INIT_BALANCE`].
    /// Otherwise, emits an error.
    pub fn execute(&self, schema: &mut AuctionSchema) -> (result: Result<(), Error>)
        ensures
            ends_as(
                old(schema)@.new_participant(self.pub_key, self.name@),
                old(schema)@,
                final(schema)@,
                result,
            ),
    {
        match self.register(schema.participant(&self.pub_key)) {
            Ok(participant) => {
                schema.participants_mut().put(self.pub_key, participant);
                Ok(())
            },
            Err(error) => Err(error),
        }
    }
}

impl TxNewItem {
    /// Key with which the transaction has to be signed: that of the owner of the item.
    pub fn signer(&self) -> (key: &PublicKey)
        ensures
            *key == self.owner_key,
    {
        &self.owner_key
    }

    /// Verifies integrity of the transaction, given whether its signature was found to be
    /// that of the [`signer`](TxNewItem::signer).
    pub fn verify(&self, signed: bool) -> (correct: bool)
        ensures
            correct == signed,
    {
        signed
    }

    /// Decides on the item, given its owner and how many items there are.
    pub fn create(&self, owner: Option<Participant>, count: u64) -> (result: Result<Item, Error>)
        ensures
            match item_refusal(record(owner)) {
                Some(error) => result == Err::<Item, Error>(error),
                None => result is Ok && result->Ok_0@ == (ItemView {
                    id: count as nat,
                    owner_key: self.owner_key,
                    desc: self.desc@,
                    url: self.url@,
                }),
            },
    {
        // Items cannot be told apart, so any item is new.
        if owner.is_none() {
            return Err(Error::ParticipantIsNotRegistered);
        }
        Ok(Item::new(count, &self.owner_key, self.desc.as_str(), self.url.as_str()))
    }

    /// Adds a new item; its id is computed.
    pub fn execute(&self, schema: &mut AuctionSchema) -> (result: Result<(), Error>)
        ensures
            ends_as(
                old(schema)@.new_item(self.owner_key, self.desc@, self.url@),
                old(schema)@,
                final(schema)@,
                result,
            ),
    {
        let count: u64 = schema.items().len();
        match self.create(schema.participant(&self.owner_key), count) {
            Ok(item) => {
                schema.items_mut().push(item);
                Ok(())
            },
            Err(error) => Err(error),
        }
    }
}

impl TxNewAuction {
    /// Key with which the transaction has to be signed: that of the auctioner.
    pub fn signer(&self) -> (key: &PublicKey)
        ensures
            *key == self.auctioner_key,
    {
        &self.auctioner_key
    }

    /// Verifies integrity of the transaction, given whether its signature was found to be
    /// that of the [`signer`](TxNewAuction::signer).
    pub fn verify(&self, signed: bool) -> (correct: bool)
        ensures
            correct == signed,
    {
        signed
    }

    /// Decides on the auction, given the auctioner, the item, and how many auctions
    /// there are.
    pub fn open(
        &self,
        auctioner: Option<Participant>,
        item: Option<Item>,
        count: u64,
    ) -> (result: Result<Auction, Error>)
        ensures
            match opening_refusal(record(auctioner), record(item)) {
                Some(error) => result == Err::<Auction, Error>(error),
                None => result is Ok && result->Ok_0@ == opened(
                    count as nat,
                    self.auctioner_key,
                    item->0@.id,
                    self.start_price as nat,
                ),
            },
    {
        let auctioner = match auctioner {
            Some(a) => a,
            None => {
                return Err(Error::ParticipantIsNotRegistered);
            },
        };
        let item = match item {
            Some(i) => i,
            None => {
                return Err(Error::ItemNotFound);
            },
        };
        if *auctioner.pub_key() != *item.owner_key() {
            return Err(Error::ItemNotOwned);
        }
        Ok(
            Auction::new(
                count,
                &self.auctioner_key,
                item.id(),
                self.start_price,
                Vec::new(),
                false,
            ),
        )
    }

    /// Opens a new auction; its id is computed.
    pub fn execute(&self, schema: &mut AuctionSchema) -> (result: Result<(), Error>)
        ensures
            ends_as(
                old(schema)@.new_auction(
                    self.auctioner_key,
                    self.item_id as nat,
                    self.start_price as nat,
                ),
                old(schema)@,
                final(schema)@,
                result,
            ),
    {
        let count: u64 = schema.auctions().len();
        let auctioner = schema.participant(&self.auctioner_key);
        let item = schema.item(self.item_id);
        match self.open(auctioner, item, count) {
            Ok(auction) => {
                schema.auctions_mut().push(auction);
                Ok(())
            },
            Err(error) => Err(error),
        }
    }
}

impl TxBid {
    /// Key with which the transaction has to be signed: that of the bidder.
    pub fn signer(&self) -> (key: &PublicKey)
        ensures
            *key == self.bidder_key,
    {
        &self.bidder_key
    }

    /// Verifies integrity of the transaction, given whether its signature was found to be
    /// that of the [`signer`](TxBid::signer).
    pub fn verify(&self, signed: bool) -> (correct: bool)
        ensures
            correct == signed,
    {
        signed
    }

    /// Tells whether the sums in [`place`](TxBid::place) come out.
    pub fn adds_up(
        &self,
        bidder: &Option<Participant>,
        auction: &Option<Auction>,
        outbid: &Option<Participant>,
    ) -> (possible: bool)
        ensures
            possible == bid_adds_up(
                self.bidder_key,
                record(*bidder),
                record(*auction),
                record(*outbid),
                self.value as nat,
            ),
    {
        match (bidder, auction) {
            (Some(b), Some(a)) => {
                if a.closed() {
                    return true;
                }
                if b.reserved() > b.balance() {
                    return false;
                }
                if self.value > b.balance() - b.reserved() {
                    return true;
                }
                match a.last_bid() {
                    Some(last) => if self.value <= last.value() {
                        true
                    } else if *last.bidder_key() == self.bidder_key {
                        last.value() <= b.reserved()
                    } else {
                        match outbid {
                            Some(o) => last.value() <= o.reserved(),
                            None => false,
                        }
                    },
                    None => true,
                }
            },
            _ => true,
        }
    }

    /// Decides on the bid, given the bidder, the auction, and whoever made the last bid
    /// in it.
    pub fn place(
        &self,
        bidder: Option<Participant>,
        auction: Option<Auction>,
        outbid: Option<Participant>,
    ) -> (result: Result<PlacedBid, Error>)
        requires
            bid_adds_up(
                self.bidder_key,
                record(bidder),
                record(auction),
                record(outbid),
                self.value as nat,
            ),
        ensures
            match bid_refusal(record(bidder), record(auction), self.value as nat) {
                Some(error) => result == Err::<PlacedBid, Error>(error),
                None => {
                    &&& result is Ok
                    &&& result->Ok_0.auction@ == auction->0@.bid(
                        Bid { bidder_key: bidder->0.pub_key, value: self.value },
                    )
                    &&& match auction->0@.last_bid() {
                        Some(last) => if leads(auction->0@, self.bidder_key) {
                            &&& result->Ok_0.bidder@ == bidder->0@.release(
                                last.value as nat,
                            ).reserve(self.value as nat)
                            &&& result->Ok_0.outbid is None
                        } else {
                            &&& result->Ok_0.bidder@ == bidder->0@.reserve(self.value as nat)
                            &&& result->Ok_0.outbid is Some
                            &&& result->Ok_0.outbid->0.key == last.bidder_key
                            &&& result->Ok_0.outbid->0.participant@ == outbid->0@.release(
                                last.value as nat,
                            )
                        },
                        None => {
                            &&& result->Ok_0.bidder@ == bidder->0@.reserve(self.value as nat)
                            &&& result->Ok_0.outbid is None
                        },
                    }
                },
            },
    {
        let bidder = match bidder {
            Some(b) => b,
            None => {
                return Err(Error::ParticipantIsNotRegistered);
            },
        };
        let auction = match auction {
            Some(a) => a,
            None => {
                return Err(Error::AuctionNotFound);
            },
        };
        if auction.closed() {
            return Err(Error::AuctionClosed);
        }
        let last = auction.last_bid();
        let price: u64 = match last {
            Some(bid) => bid.value(),
            None => auction.start_price(),
        };
        // Funds available for the bidder to bid.
        let funds: u64 = bidder.balance() - bidder.reserved();
        if self.value > funds {
            return Err(Error::InsufficientFunds);
        }
        if self.value <= price {
            return Err(Error::BidTooLow);
        }
        // The bidder has enough funds and made the highest bid.
        let auction = auction.bid(Bid::new(bidder.pub_key(), self.value));
        let bid = match last {
            Some(bid) => bid,
            None => {
                return Ok(PlacedBid { auction, outbid: None, bidder: bidder.reserve(self.value) });
            },
        };
        if *bid.bidder_key() == self.bidder_key {
            let bidder = bidder.release(bid.value()).reserve(self.value);
            return Ok(PlacedBid { auction, outbid: None, bidder });
        }
        let released = match outbid {
            Some(participant) => Some(
                Posting {
                    key: *bid.bidder_key(),
                    participant: participant.release(bid.value()),
                },
            ),
            None => None,
        };
        Ok(PlacedBid { auction, outbid: released, bidder: bidder.reserve(self.value) })
    }

    /// Places a bid in an auction.
    pub fn execute(&self, schema: &mut AuctionSchema) -> (result: Result<(), Error>)
        requires
            old(schema)@.bid_runs(self.bidder_key, self.auction_id as nat, self.value as nat),
        ensures
            ends_as(
                old(schema)@.bid(self.bidder_key, self.auction_id as nat, self.value),
                old(schema)@,
                final(schema)@,
                result,
            ),
    {
        let bidder = schema.participant(&self.bidder_key);
        let auction = schema.auction(self.auction_id);
        let outbid = last_bidder(schema, &auction);
        match self.place(bidder, auction, outbid) {
            Ok(placed) => {
                // 1. Update the auction.
                schema.auctions_mut().set(placed.auction.id(), placed.auction);
                // 2. Release funds of the previous bidder, reserve funds of the bidder.
                if let Some(posting) = placed.outbid {
                    schema.participants_mut().put(posting.key, posting.participant);
                }
                schema.participants_mut().put(self.bidder_key, placed.bidder);
                assert(schema@.participants =~= old(schema)@.bid(
                    self.bidder_key,
                    self.auction_id as nat,
                    self.value,
                )->Ok_0.participants);
                Ok(())
            },
            Err(error) => Err(error),
        }
    }
}

impl TxCloseAuction {
    /// Verifies integrity of the transaction: it names nobody who would have to sign it, so
    /// anybody may send it.
    pub fn verify(&self) -> (correct: bool)
        ensures
            correct,
    {
        true
    }

    /// Tells whether the sums in [`settle`](TxCloseAuction::settle) come out.
    pub fn adds_up(
        &self,
        auction: &Option<Auction>,
        auctioner: &Option<Participant>,
        winner: &Option<Participant>,
    ) -> (possible: bool)
        ensures
            possible == closing_adds_up(record(*auction), record(*auctioner), record(*winner)),
    {
        match auction {
            Some(a) => match a.last_bid() {
                Some(bid) => {
                    let payer = if *bid.bidder_key() == *a.auctioner_key() {
                        auctioner
                    } else {
                        winner
                    };
                    match (auctioner, payer) {
                        (Some(s), Some(p)) => {
                            bid.value() <= p.reserved() && bid.value() <= p.balance()
                                && bid.value() <= u64::MAX - s.balance()
                        },
                        _ => false,
                    }
                },
                None => true,
            },
            None => true,
        }
    }

    /// Decides on closing the auction, given the auctioner and whoever made the last
    /// bid in it.
    pub fn settle(
        &self,
        auction: Option<Auction>,
        auctioner: Option<Participant>,
        winner: Option<Participant>,
    ) -> (result: Result<Settlement, Error>)
        requires
            closing_adds_up(record(auction), record(auctioner), record(winner)),
        ensures
            match closing_refusal(record(auction)) {
                Some(error) => result == Err::<Settlement, Error>(error),
                None => {
                    &&& result is Ok
                    &&& result->Ok_0.auction@ == auction->0@.close()
                    &&& match auction->0@.last_bid() {
                        Some(bid) => {
                            let value = bid.value as nat;
                            let paid = auctioner->0@.increase(value);
                            let payer = if leads(auction->0@, auction->0.auctioner_key) {
                                paid
                            } else {
                                winner->0@
                            };
                            &&& result->Ok_0.payment is Some
                            &&& result->Ok_0.payment->0.auctioner.key == auction->0.auctioner_key
                            &&& result->Ok_0.payment->0.auctioner.participant@ == paid
                            &&& result->Ok_0.payment->0.winner.key == bid.bidder_key
                            &&& result->Ok_0.payment->0.winner.participant@ == payer.release(
                                value,
                            ).decrease(value)
                        },
                        None => result->Ok_0.payment is None,
                    }
                },
            },
    {
        let auction = match auction {
            Some(a) => a,
            None => {
                return Err(Error::AuctionNotFound);
            },
        };
        let payment = match (auction.last_bid(), auctioner) {
            (Some(bid), Some(auctioner)) => {
                let auctioner = auctioner.increase(bid.value());
                let payer = if *bid.bidder_key() == *auction.auctioner_key() {
                    Some(auctioner.clone())
                } else {
                    winner
                };
                // Release the appropriate amount from the winner's reserve and withdraw
                // the funds in favour of the auctioner.
                let winner = payer.unwrap().release(bid.value()).decrease(bid.value());
                Some(
                    Payment {
                        auctioner: Posting {
                            key: *auction.auctioner_key(),
                            participant: auctioner,
                        },
                        winner: Posting { key: *bid.bidder_key(), participant: winner },
                    },
                )
            },
            _ => None,
        };
        Ok(Settlement { auction: auction.close(), payment })
    }

    /// Closes an auction and settles the payment between the winner and the auctioner.
    pub fn execute(&self, schema: &mut AuctionSchema) -> (result: Result<(), Error>)
        requires
            old(schema)@.close_runs(self.auction_id as nat),
        ensures
            ends_as(
                old(schema)@.close_auction(self.auction_id as nat),
                old(schema)@,
                final(schema)@,
                result,
            ),
    {
        let auction = schema.auction(self.auction_id);
        let auctioner = match &auction {
            Some(a) => schema.participant(a.auctioner_key()),
            None => None,
        };
        let winner = last_bidder(schema, &auction);
        match self.settle(auction, auctioner, winner) {
            Ok(settlement) => {
                if let Some(payment) = settlement.payment {
                    let auctioner = payment.auctioner;
                    let winner = payment.winner;
                    schema.participants_mut().put(auctioner.key, auctioner.participant);
                    schema.participants_mut().put(winner.key, winner.participant);
                }
                schema.auctions_mut().set(settlement.auction.id(), settlement.auction);
                Ok(())
            },
            Err(error) => Err(error),
        }
    }
}

/// Looks up the participant whose bid is the last one in an auction.
fn last_bidder(schema: &AuctionSchema, auction: &Option<Auction>) -> (participant: Option<
    Participant,
>)
    ensures
        record(participant) == match record(*auction) {
            Some(a) => match a.last_bid() {
                Some(bid) => schema@.participant(bid.bidder_key),
                None => None,
            },
            None => None,
        },
{
    match auction {
        Some(a) => match a.last_bid() {
            Some(bid) => schema.participant(bid.bidder_key()),
            None => None,
        },
        None => None,
    }
}

} // verus!
