//! What the state of the auction service is, and what each transaction makes of it.

use vstd::prelude::*;

use super::data::{AuctionView, Bid, ItemView, ParticipantView};
use super::error::Error;
use crate::crypto::PublicKey;

verus! {

/// Initial funds available for every new participant.
pub const INIT_BALANCE: u64 = 100;

/// State of the auction service.
#[verifier::ext_equal]
pub struct Ledger {
    /// Participants by their public keys.
    pub participants: Map<PublicKey, ParticipantView>,
    /// Items by their numbers.
    pub items: Seq<ItemView>,
    /// Auctions by their numbers.
    pub auctions: Seq<AuctionView>,
}

/// Why a participant cannot be registered, given who has their key already.
pub open spec fn registration_refusal(known: Option<ParticipantView>) -> Option<Error> {
    if known is Some {
        Some(Error::ParticipantAlreadyRegistered)
    } else {
        None
    }
}

/// A participant as they are registered.
pub open spec fn registered(pub_key: PublicKey, name: Seq<char>) -> ParticipantView {
    ParticipantView { pub_key, name, balance: INIT_BALANCE as nat, reserved: 0 }
}

/// Why an item cannot be created, given its owner.
pub open spec fn item_refusal(owner: Option<ParticipantView>) -> Option<Error> {
    if owner is None {
        Some(Error::ParticipantIsNotRegistered)
    } else {
        None
    }
}

/// Why an auction cannot be opened, given the auctioner and the item.
pub open spec fn opening_refusal(
    auctioner: Option<ParticipantView>,
    item: Option<ItemView>,
) -> Option<Error> {
    if auctioner is None {
        Some(Error::ParticipantIsNotRegistered)
    } else if item is None {
        Some(Error::ItemNotFound)
    } else if auctioner->0.pub_key != item->0.owner_key {
        Some(Error::ItemNotOwned)
    } else {
        None
    }
}

/// An auction as it is opened.
pub open spec fn opened(
    id: nat,
    auctioner_key: PublicKey,
    item_id: nat,
    start_price: nat,
) -> AuctionView {
    AuctionView {
        id,
        auctioner_key,
        item_id,
        start_price,
        bidding: Seq::empty(),
        closed: false,
    }
}

/// Why a bid cannot be placed, given the bidder and the auction. Of several
/// reasons, the first in this order counts.
pub open spec fn bid_refusal(
    bidder: Option<ParticipantView>,
    auction: Option<AuctionView>,
    value: nat,
) -> Option<Error> {
    if bidder is None {
        Some(Error::ParticipantIsNotRegistered)
    } else if auction is None {
        Some(Error::AuctionNotFound)
    } else if auction->0.closed {
        Some(Error::AuctionClosed)
    } else if value > bidder->0.balance - bidder->0.reserved {
        Some(Error::InsufficientFunds)
    } else if value <= auction->0.price() {
        Some(Error::BidTooLow)
    } else {
        None
    }
}

/// Tells whether the last bid of an auction was made with the given key.
pub open spec fn leads(auction: AuctionView, key: PublicKey) -> bool {
    match auction.last_bid() {
        Some(bid) => bid.bidder_key == key,
        None => false,
    }
}

/// Tells whether the sums in placing a bid come out: the bidder has not reserved
/// more than they own, and if the bid is accepted, whoever is outbid, which may be the
/// bidder, is registered and has the outbid amount in reserve.
pub open spec fn bid_adds_up(
    bidder_key: PublicKey,
    bidder: Option<ParticipantView>,
    auction: Option<AuctionView>,
    outbid: Option<ParticipantView>,
    value: nat,
) -> bool {
    bidder is Some && auction is Some && !auction->0.closed ==> {
        &&& bidder->0.reserved <= bidder->0.balance
        &&& bid_refusal(bidder, auction, value) is None && auction->0.last_bid() is Some ==> {
            let holder = if leads(auction->0, bidder_key) {
                bidder
            } else {
                outbid
            };
            &&& holder is Some
            &&& auction->0.last_bid()->0.value <= holder->0.reserved
        }
    }
}

/// Why an auction cannot be closed.
pub open spec fn closing_refusal(auction: Option<AuctionView>) -> Option<Error> {
    if auction is None {
        Some(Error::AuctionNotFound)
    } else {
        None
    }
}

/// Tells whether the sums in closing an auction come out: if there is a winner,
/// then both they and the auctioner, who may be the same, are registered, the winner owns
/// the amount of the bid and has it in reserve, and the auctioner can hold it.
pub open spec fn closing_adds_up(
    auction: Option<AuctionView>,
    auctioner: Option<ParticipantView>,
    winner: Option<ParticipantView>,
) -> bool {
    auction is Some && auction->0.last_bid() is Some ==> {
        let value = auction->0.last_bid()->0.value;
        let payer = if leads(auction->0, auction->0.auctioner_key) {
            auctioner
        } else {
            winner
        };
        &&& auctioner is Some
        &&& payer is Some
        &&& value <= payer->0.reserved
        &&& value <= payer->0.balance
        &&& auctioner->0.balance + value <= u64::MAX
    }
}

impl Ledger {
    /// The ledger of a service that has not seen any transaction.
    pub open spec fn initial() -> Ledger {
        Ledger { participants: Map::empty(), items: Seq::empty(), auctions: Seq::empty() }
    }

    /// The participant with the given key.
    pub open spec fn participant(self, key: PublicKey) -> Option<ParticipantView> {
        if self.participants.contains_key(key) {
            Some(self.participants[key])
        } else {
            None
        }
    }

    /// The item with the given number.
    pub open spec fn item(self, id: nat) -> Option<ItemView> {
        if id < self.items.len() {
            Some(self.items[id as int])
        } else {
            None
        }
    }

    /// The auction with the given number.
    pub open spec fn auction(self, id: nat) -> Option<AuctionView> {
        if id < self.auctions.len() {
            Some(self.auctions[id as int])
        } else {
            None
        }
    }

    /// The participant whose bid is the last one in an auction.
    pub open spec fn last_bidder(self, auction_id: nat) -> Option<ParticipantView> {
        match self.auction(auction_id) {
            Some(auction) => match auction.last_bid() {
                Some(bid) => self.participant(bid.bidder_key),
                None => None,
            },
            None => None,
        }
    }

    /// The participant who sells the item of an auction.
    pub open spec fn seller(self, auction_id: nat) -> Option<ParticipantView> {
        match self.auction(auction_id) {
            Some(auction) => self.participant(auction.auctioner_key),
            None => None,
        }
    }

    /// Registers a participant with the initial balance.
    pub open spec fn new_participant(self, pub_key: PublicKey, name: Seq<char>) -> Result<
        Ledger,
        Error,
    > {
        match registration_refusal(self.participant(pub_key)) {
            Some(error) => Err(error),
            None => Ok(
                Ledger {
                    participants: self.participants.insert(pub_key, registered(pub_key, name)),
                    ..self
                },
            ),
        }
    }

    /// Adds an item of a registered owner. Its number is the next free one.
    pub open spec fn new_item(
        self,
        owner_key: PublicKey,
        desc: Seq<char>,
        url: Seq<char>,
    ) -> Result<Ledger, Error> {
        match item_refusal(self.participant(owner_key)) {
            Some(error) => Err(error),
            None => Ok(
                Ledger {
                    items: self.items.push(
                        ItemView { id: self.items.len(), owner_key, desc, url },
                    ),
                    ..self
                },
            ),
        }
    }

    /// Opens an auction of an item that the auctioner owns. Its number is the next
    /// free one.
    pub open spec fn new_auction(
        self,
        auctioner_key: PublicKey,
        item_id: nat,
        start_price: nat,
    ) -> Result<Ledger, Error> {
        match opening_refusal(self.participant(auctioner_key), self.item(item_id)) {
            Some(error) => Err(error),
            None => Ok(
                Ledger {
                    auctions: self.auctions.push(
                        opened(
                            self.auctions.len(),
                            auctioner_key,
                            self.items[item_id as int].id,
                            start_price,
                        ),
                    ),
                    ..self
                },
            ),
        }
    }

    /// Tells whether a bid runs to its end without an impossible sum or a missing
    /// record.
    pub open spec fn bid_runs(self, bidder_key: PublicKey, auction_id: nat, value: nat) -> bool {
        let bidder = self.participant(bidder_key);
        let auction = self.auction(auction_id);
        &&& bid_adds_up(bidder_key, bidder, auction, self.last_bidder(auction_id), value)
        &&& bid_refusal(bidder, auction, value) is None ==> auction->0.id < self.auctions.len()
    }

    /// The participants after the outbid one, if any, got their reserve back.
    pub open spec fn with_outbid_released(self, auction_id: nat) -> Map<
        PublicKey,
        ParticipantView,
    > {
        match self.auctions[auction_id as int].last_bid() {
            Some(bid) => self.participants.insert(
                bid.bidder_key,
                self.participants[bid.bidder_key].release(bid.value as nat),
            ),
            None => self.participants,
        }
    }

    /// Places a bid: it becomes the last one of the auction, the funds of the bidder
    /// before are released, and then the new bidder's are reserved.
    pub open spec fn bid(self, bidder_key: PublicKey, auction_id: nat, value: u64) -> Result<
        Ledger,
        Error,
    > {
        let bidder = self.participant(bidder_key);
        let auction = self.auction(auction_id);
        let released = self.with_outbid_released(auction_id);
        match bid_refusal(bidder, auction, value as nat) {
            Some(error) => Err(error),
            None => Ok(
                Ledger {
                    participants: released.insert(
                        bidder_key,
                        released[bidder_key].reserve(value as nat),
                    ),
                    auctions: self.auctions.update(
                        auction->0.id as int,
                        auction->0.bid(Bid { bidder_key: bidder->0.pub_key, value }),
                    ),
                    ..self
                },
            ),
        }
    }

    /// Tells whether closing an auction runs to its end without an impossible sum or a
    /// missing record.
    pub open spec fn close_runs(self, auction_id: nat) -> bool {
        let auction = self.auction(auction_id);
        &&& closing_adds_up(auction, self.seller(auction_id), self.last_bidder(auction_id))
        &&& auction is Some ==> auction->0.id < self.auctions.len()
    }

    /// The participants after the winner of an auction, if there is one, has paid: the
    /// amount is added to the balance of the auctioner, and taken from the reserve and the
    /// balance of the winner.
    pub open spec fn with_payment(self, auction_id: nat) -> Map<PublicKey, ParticipantView> {
        let auction = self.auctions[auction_id as int];
        match auction.last_bid() {
            Some(bid) => {
                let value = bid.value as nat;
                let paid = self.participants.insert(
                    auction.auctioner_key,
                    self.participants[auction.auctioner_key].increase(value),
                );
                paid.insert(
                    bid.bidder_key,
                    paid[bid.bidder_key].release(value).decrease(value),
                )
            },
            None => self.participants,
        }
    }

    /// Closes an auction and settles the payment between the winner and the
    /// auctioner.
    pub open spec fn close_auction(self, auction_id: nat) -> Result<Ledger, Error> {
        let auction = self.auction(auction_id);
        match closing_refusal(auction) {
            Some(error) => Err(error),
            None => Ok(
                Ledger {
                    participants: self.with_payment(auction_id),
                    auctions: self.auctions.update(auction->0.id as int, auction->0.close()),
                    ..self
                },
            ),
        }
    }
}

} // verus!
