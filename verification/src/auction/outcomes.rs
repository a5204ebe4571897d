//! What each transaction of the auction service comes to, record by record and field by
//! field.

use vstd::prelude::*;

use super::data::{AuctionView, ItemView, ParticipantView};
use super::error::Error;
use super::laws::Change;
use super::ledger::{
    bid_adds_up, bid_refusal, closing_adds_up, closing_refusal, item_refusal, opened,
    opening_refusal, registered, registration_refusal, Ledger,
};
use super::schema::record;
use super::transactions::ends_as;
use crate::crypto::PublicKey;

verus! {

/// A missing record stands for nothing, and a record for what it holds.
pub proof fn records_are_not_lost<T: View>(value: Option<T>)
    ensures
        value is None <==> record(value) is None,
        value is Some ==> record(value) == Some(value->0@),
{
}

/// A transaction that is not refused succeeds and leaves the state that it should reach. One
/// that is refused fails for that reason and leaves the state as it was.
pub proof fn transactions_end_as_they_should(
    step: Result<Ledger, Error>,
    before: Ledger,
    after: Ledger,
    result: Result<(), Error>,
)
    ensures
        ends_as(step, before, after, result) <==> {
            ||| step is Ok && result is Ok && after == step->Ok_0
            ||| step is Err && result is Err && result->Err_0 == step->Err_0 && after == before
        },
{
}

/// A new ledger holds nothing.
pub proof fn new_ledgers_are_empty(key: PublicKey)
    ensures
        !Ledger::initial().participants.contains_key(key),
        Ledger::initial().items.len() == 0,
        Ledger::initial().auctions.len() == 0,
{
}

/// Whatever is in the tables is found under its key or number, and nothing else is.
pub proof fn records_are_found(ledger: Ledger, key: PublicKey, id: nat)
    ensures
        ledger.participant(key) is Some <==> ledger.participants.contains_key(key),
        ledger.participants.contains_key(key) ==> ledger.participant(key)->0
            == ledger.participants[key],
        ledger.item(id) is Some <==> id < ledger.items.len(),
        id < ledger.items.len() ==> ledger.item(id)->0 == ledger.items[id as int],
        ledger.auction(id) is Some <==> id < ledger.auctions.len(),
        id < ledger.auctions.len() ==> ledger.auction(id)->0 == ledger.auctions[id as int],
{
}

/// A registration is refused just where the key is taken. Otherwise the participant owns one
/// hundred, has nothing in reserve, and nothing else changes.
pub proof fn registration_adds_one_participant(
    ledger: Ledger,
    pub_key: PublicKey,
    name: Seq<char>,
    other: PublicKey,
)
    ensures
        match ledger.new_participant(pub_key, name) {
            Ok(next) => {
                &&& !ledger.participants.contains_key(pub_key)
                &&& next.participants.contains_key(pub_key)
                &&& next.participants[pub_key].pub_key == pub_key
                &&& next.participants[pub_key].name == name
                &&& next.participants[pub_key].balance == 100
                &&& next.participants[pub_key].reserved == 0
                &&& other != pub_key ==> {
                    &&& next.participants.contains_key(other)
                        == ledger.participants.contains_key(other)
                    &&& next.participants[other] == ledger.participants[other]
                }
                &&& next.items == ledger.items
                &&& next.auctions == ledger.auctions
            },
            Err(error) => {
                &&& ledger.participants.contains_key(pub_key)
                &&& error == Error::ParticipantAlreadyRegistered
            },
        },
{
}

/// An item is refused just where its owner is not registered. Otherwise it comes behind all
/// others, with the next number, and nothing else changes.
pub proof fn creation_adds_one_item(
    ledger: Ledger,
    owner_key: PublicKey,
    desc: Seq<char>,
    url: Seq<char>,
    i: int,
)
    ensures
        match ledger.new_item(owner_key, desc, url) {
            Ok(next) => {
                let count = ledger.items.len();
                &&& ledger.participants.contains_key(owner_key)
                &&& next.items.len() == count + 1
                &&& next.items[count as int].id == count
                &&& next.items[count as int].owner_key == owner_key
                &&& next.items[count as int].desc == desc
                &&& next.items[count as int].url == url
                &&& 0 <= i < count ==> next.items[i] == ledger.items[i]
                &&& next.participants == ledger.participants
                &&& next.auctions == ledger.auctions
            },
            Err(error) => {
                &&& !ledger.participants.contains_key(owner_key)
                &&& error == Error::ParticipantIsNotRegistered
            },
        },
{
}

/// An auction is refused where the auctioner is not registered, else where there is no such
/// item, else where somebody else owns it, and nowhere else. Otherwise it comes behind all
/// others, with the next number, open, without bids, and with the item and the starting
/// price that were asked for. Nothing else changes.
pub proof fn opening_adds_one_auction(
    ledger: Ledger,
    auctioner_key: PublicKey,
    item_id: nat,
    start_price: nat,
    i: int,
)
    ensures
        match ledger.new_auction(auctioner_key, item_id, start_price) {
            Ok(next) => {
                let count = ledger.auctions.len();
                let item = ledger.items[item_id as int];
                &&& ledger.participants.contains_key(auctioner_key)
                &&& item_id < ledger.items.len()
                &&& ledger.participants[auctioner_key].pub_key == item.owner_key
                &&& next.auctions.len() == count + 1
                &&& next.auctions[count as int].id == count
                &&& next.auctions[count as int].auctioner_key == auctioner_key
                &&& next.auctions[count as int].item_id == item.id
                &&& item.id == item_id ==> next.auctions[count as int].item_id == item_id
                &&& next.auctions[count as int].start_price == start_price
                &&& next.auctions[count as int].bidding.len() == 0
                &&& !next.auctions[count as int].closed
                &&& 0 <= i < count ==> next.auctions[i] == ledger.auctions[i]
                &&& next.participants == ledger.participants
                &&& next.items == ledger.items
            },
            Err(error) => {
                ||| !ledger.participants.contains_key(auctioner_key) && error
                    == Error::ParticipantIsNotRegistered
                ||| ledger.participants.contains_key(auctioner_key) && item_id
                    >= ledger.items.len() && error == Error::ItemNotFound
                ||| ledger.participants.contains_key(auctioner_key) && item_id
                    < ledger.items.len() && ledger.participants[auctioner_key].pub_key
                    != ledger.items[item_id as int].owner_key && error == Error::ItemNotOwned
            },
        },
{
}

/// In an auction that was just opened, the first bid is accepted just where it exceeds the
/// starting price that was asked for and the bidder has the funds for it.
pub proof fn first_bids_exceed_the_price_asked(
    ledger: Ledger,
    auctioner_key: PublicKey,
    item_id: nat,
    start_price: nat,
    bidder_key: PublicKey,
    value: u64,
)
    requires
        ledger.new_auction(auctioner_key, item_id, start_price) is Ok,
    ensures
        ({
            let next = ledger.new_auction(auctioner_key, item_id, start_price)->Ok_0;
            let bidder = ledger.participants[bidder_key];
            next.bid(bidder_key, ledger.auctions.len(), value) is Ok <==> {
                &&& ledger.participants.contains_key(bidder_key)
                &&& value + bidder.reserved <= bidder.balance
                &&& value > start_price
            }
        }),
{
}

/// A bid is accepted just where the bidder is registered, the auction is there and open, the
/// bid is within the funds that the bidder has not reserved, and it exceeds the last bid or,
/// without one, the starting price. How many bids there are already does not matter. A
/// refused bid gets the first reason in this order.
pub proof fn bids_are_accepted_when_due(
    ledger: Ledger,
    bidder_key: PublicKey,
    auction_id: nat,
    value: u64,
)
    ensures
        ({
            let bidder = ledger.participants[bidder_key];
            let auction = ledger.auctions[auction_id as int];
            let registered = ledger.participants.contains_key(bidder_key);
            let present = auction_id < ledger.auctions.len();
            let funded = value <= bidder.balance - bidder.reserved;
            let higher = if auction.bidding.len() == 0 {
                value > auction.start_price
            } else {
                value > auction.bidding[auction.bidding.len() - 1].value
            };
            match ledger.bid(bidder_key, auction_id, value) {
                Ok(_) => registered && present && !auction.closed && funded && higher,
                Err(error) => {
                    ||| !registered && error == Error::ParticipantIsNotRegistered
                    ||| registered && !present && error == Error::AuctionNotFound
                    ||| registered && present && auction.closed && error == Error::AuctionClosed
                    ||| registered && present && !auction.closed && !funded && error
                        == Error::InsufficientFunds
                    ||| registered && present && !auction.closed && funded && !higher && error
                        == Error::BidTooLow
                },
            }
        }),
{
}

/// An accepted bid becomes the last one of its auction. The bids before it and all other
/// fields and auctions stay as they are.
pub proof fn bids_are_appended(
    ledger: Ledger,
    bidder_key: PublicKey,
    auction_id: nat,
    value: u64,
    i: int,
    j: int,
)
    requires
        ledger.bid(bidder_key, auction_id, value) is Ok,
        ledger.auctions[auction_id as int].id == auction_id,
    ensures
        ({
            let next = ledger.bid(bidder_key, auction_id, value)->Ok_0;
            let before = ledger.auctions[auction_id as int];
            let after = next.auctions[auction_id as int];
            let count = before.bidding.len();
            &&& next.items == ledger.items
            &&& next.auctions.len() == ledger.auctions.len()
            &&& 0 <= i < ledger.auctions.len() && i != auction_id ==> next.auctions[i]
                == ledger.auctions[i]
            &&& after.id == before.id
            &&& after.auctioner_key == before.auctioner_key
            &&& after.item_id == before.item_id
            &&& after.start_price == before.start_price
            &&& !after.closed
            &&& after.bidding.len() == count + 1
            &&& 0 <= j < count ==> after.bidding[j] == before.bidding[j]
            &&& after.bidding[count as int].bidder_key == ledger.participants[bidder_key].pub_key
            &&& after.bidding[count as int].value == value
        }),
{
}

/// An accepted bid changes reserves only: the bidder's grows by the new bid, that of whoever
/// made the last bid shrinks by it, for both reasons where they are the same.
pub proof fn bids_change_reserves_only(
    ledger: Ledger,
    bidder_key: PublicKey,
    auction_id: nat,
    value: u64,
    key: PublicKey,
)
    requires
        ledger.bid(bidder_key, auction_id, value) is Ok,
        ledger.auctions[auction_id as int].bidding.len() > 0 ==> {
            let bidding = ledger.auctions[auction_id as int].bidding;
            let last = bidding[bidding.len() - 1];
            &&& ledger.participants.contains_key(last.bidder_key)
            &&& last.value <= ledger.participants[last.bidder_key].reserved
        },
    ensures
        ({
            let next = ledger.bid(bidder_key, auction_id, value)->Ok_0;
            let bidding = ledger.auctions[auction_id as int].bidding;
            let last = bidding[bidding.len() - 1];
            let gained = if key == bidder_key {
                value as int
            } else {
                0
            };
            let given_back = if bidding.len() > 0 && key == last.bidder_key {
                last.value as int
            } else {
                0
            };
            &&& next.participants.contains_key(key) == ledger.participants.contains_key(key)
            &&& ledger.participants.contains_key(key) ==> {
                let before = ledger.participants[key];
                let after = next.participants[key];
                &&& after.pub_key == before.pub_key
                &&& after.name == before.name
                &&& after.balance == before.balance
                &&& after.reserved == before.reserved + gained - given_back
            }
        }),
{
}

/// A bid runs to its end just where the bidder has not reserved more than they own, the one
/// who is outbid has the bid before in reserve, and the record of the auction has the number
/// of an auction, each as far as the bid gets.
pub proof fn bids_run_when_sums_come_out(
    ledger: Ledger,
    bidder_key: PublicKey,
    auction_id: nat,
    value: u64,
)
    ensures
        ({
            let bidder = ledger.participants[bidder_key];
            let auction = ledger.auctions[auction_id as int];
            let last = auction.bidding[auction.bidding.len() - 1];
            let decided = ledger.participants.contains_key(bidder_key) && auction_id
                < ledger.auctions.len() && !auction.closed;
            let accepted = decided && value <= bidder.balance - bidder.reserved && value > (
            if auction.bidding.len() == 0 {
                auction.start_price as int
            } else {
                last.value as int
            });
            ledger.bid_runs(bidder_key, auction_id, value as nat) <==> {
                &&& decided ==> bidder.reserved <= bidder.balance
                &&& accepted && auction.bidding.len() > 0 ==> {
                    &&& ledger.participants.contains_key(last.bidder_key)
                    &&& last.value <= ledger.participants[last.bidder_key].reserved
                }
                &&& accepted ==> auction.id < ledger.auctions.len()
            }
        }),
{
}

/// An auction is closed just where it is there: its flag is set, with bids or without and
/// whatever the price, and all other fields and auctions stay as they are.
pub proof fn closing_sets_the_flag(ledger: Ledger, auction_id: nat, i: int)
    requires
        auction_id < ledger.auctions.len() ==> ledger.auctions[auction_id as int].id
            == auction_id,
    ensures
        match ledger.close_auction(auction_id) {
            Ok(next) => {
                let before = ledger.auctions[auction_id as int];
                let after = next.auctions[auction_id as int];
                &&& auction_id < ledger.auctions.len()
                &&& after.closed
                &&& after.id == before.id
                &&& after.auctioner_key == before.auctioner_key
                &&& after.item_id == before.item_id
                &&& after.start_price == before.start_price
                &&& after.bidding == before.bidding
                &&& next.auctions.len() == ledger.auctions.len()
                &&& 0 <= i < ledger.auctions.len() && i != auction_id ==> next.auctions[i]
                    == ledger.auctions[i]
                &&& next.items == ledger.items
            },
            Err(error) => {
                &&& auction_id >= ledger.auctions.len()
                &&& error == Error::AuctionNotFound
            },
        },
{
}

/// Once an auction was closed, every bid of a registered participant in it is refused because
/// it is closed.
pub proof fn no_bids_after_closing(
    ledger: Ledger,
    auction_id: nat,
    bidder_key: PublicKey,
    value: u64,
)
    requires
        auction_id < ledger.auctions.len(),
        ledger.auctions[auction_id as int].id == auction_id,
        ledger.participants.contains_key(bidder_key),
    ensures
        ledger.close_auction(auction_id)->Ok_0.bid(bidder_key, auction_id, value) == Err::<
            Ledger,
            Error,
        >(Error::AuctionClosed),
{
}

/// What is closed stays closed, with the bids that it has, whatever is executed next.
pub proof fn closed_auctions_stay_as_they_are(ledger: Ledger, change: Change, i: int)
    requires
        forall|k: int| 0 <= k < ledger.auctions.len() ==> (#[trigger] ledger.auctions[k]).id == k,
        0 <= i < ledger.auctions.len(),
        ledger.auctions[i].closed,
        ledger.apply(change) is Ok,
    ensures
        i < ledger.apply(change)->Ok_0.auctions.len(),
        ledger.apply(change)->Ok_0.auctions[i].closed,
        ledger.apply(change)->Ok_0.auctions[i].bidding == ledger.auctions[i].bidding,
{
}

/// Closing an auction with a bid moves the last bid from the balance of its bidder, and out
/// of their reserve, to the balance of the auctioner. Without a bid it moves nothing. Names
/// and keys stay, and so does everybody else.
pub proof fn closing_pays_the_last_bid(ledger: Ledger, auction_id: nat, key: PublicKey)
    requires
        auction_id < ledger.auctions.len(),
        ledger.auctions[auction_id as int].bidding.len() > 0 ==> {
            let auction = ledger.auctions[auction_id as int];
            let last = auction.bidding[auction.bidding.len() - 1];
            &&& ledger.participants.contains_key(auction.auctioner_key)
            &&& ledger.participants.contains_key(last.bidder_key)
            &&& last.value <= ledger.participants[last.bidder_key].reserved
            &&& last.value <= ledger.participants[last.bidder_key].balance
        },
    ensures
        ({
            let next = ledger.close_auction(auction_id)->Ok_0;
            let auction = ledger.auctions[auction_id as int];
            let last = auction.bidding[auction.bidding.len() - 1];
            let paid = if auction.bidding.len() > 0 && key == last.bidder_key {
                last.value as int
            } else {
                0
            };
            let received = if auction.bidding.len() > 0 && key == auction.auctioner_key {
                last.value as int
            } else {
                0
            };
            &&& next.participants.contains_key(key) == ledger.participants.contains_key(key)
            &&& ledger.participants.contains_key(key) ==> {
                let before = ledger.participants[key];
                let after = next.participants[key];
                &&& after.pub_key == before.pub_key
                &&& after.name == before.name
                &&& after.balance == before.balance - paid + received
                &&& after.reserved == before.reserved - paid
            }
        }),
{
}

/// Closing an auction runs to its end just where the one who made the last bid owns it and
/// has it in reserve, the auctioner can hold it, both are registered, and the record of the
/// auction has the number of an auction.
pub proof fn closing_runs_when_sums_come_out(ledger: Ledger, auction_id: nat)
    ensures
        ({
            let auction = ledger.auctions[auction_id as int];
            let last = auction.bidding[auction.bidding.len() - 1];
            ledger.close_runs(auction_id) <==> (auction_id < ledger.auctions.len() ==> {
                &&& auction.id < ledger.auctions.len()
                &&& auction.bidding.len() > 0 ==> {
                    &&& ledger.participants.contains_key(auction.auctioner_key)
                    &&& ledger.participants.contains_key(last.bidder_key)
                    &&& last.value <= ledger.participants[last.bidder_key].reserved
                    &&& last.value <= ledger.participants[last.bidder_key].balance
                    &&& ledger.participants[auction.auctioner_key].balance + last.value
                        <= 0xffff_ffff_ffff_ffff
                }
            })
        }),
{
}

/// The decisions on records alone: who is refused, and why.
pub proof fn decisions_have_their_reasons(
    participant: Option<ParticipantView>,
    item: Option<ItemView>,
    auction: Option<AuctionView>,
    value: nat,
)
    ensures
        registration_refusal(participant) == (if participant is Some {
            Some(Error::ParticipantAlreadyRegistered)
        } else {
            None
        }),
        item_refusal(participant) == (if participant is Some {
            None
        } else {
            Some(Error::ParticipantIsNotRegistered)
        }),
        opening_refusal(participant, item) is None <==> participant is Some && item is Some
            && participant->0.pub_key == item->0.owner_key,
        closing_refusal(auction) == (if auction is Some {
            None
        } else {
            Some(Error::AuctionNotFound)
        }),
        bid_refusal(participant, auction, value) is None <==> {
            &&& participant is Some
            &&& auction is Some
            &&& !auction->0.closed
            &&& value + participant->0.reserved <= participant->0.balance
            &&& auction->0.bidding.len() == 0 ==> value > auction->0.start_price
            &&& auction->0.bidding.len() > 0 ==> value
                > auction->0.bidding[auction->0.bidding.len() - 1].value
        },
        bid_refusal(participant, auction, value) == Some(Error::BidTooLow) ==> {
            &&& auction->0.bidding.len() == 0 ==> value <= auction->0.start_price
            &&& auction->0.bidding.len() > 0 ==> value
                <= auction->0.bidding[auction->0.bidding.len() - 1].value
        },
        bid_refusal(participant, auction, value) == Some(Error::InsufficientFunds) ==> value
            + participant->0.reserved > participant->0.balance,
        bid_refusal(participant, auction, value) == Some(Error::AuctionClosed)
            ==> auction->0.closed,
        bid_refusal(participant, auction, value) == Some(Error::AuctionNotFound)
            ==> participant is Some && auction is None,
        bid_refusal(participant, auction, value) == Some(Error::ParticipantIsNotRegistered)
            ==> participant is None,
{
}

/// New records hold what they are made of.
pub proof fn new_records_hold_what_was_asked(
    key: PublicKey,
    name: Seq<char>,
    id: nat,
    item_id: nat,
    start_price: nat,
)
    ensures
        registered(key, name).pub_key == key,
        registered(key, name).name == name,
        registered(key, name).balance == 100,
        registered(key, name).reserved == 0,
        opened(id, key, item_id, start_price).id == id,
        opened(id, key, item_id, start_price).auctioner_key == key,
        opened(id, key, item_id, start_price).item_id == item_id,
        opened(id, key, item_id, start_price).start_price == start_price,
        opened(id, key, item_id, start_price).bidding.len() == 0,
        !opened(id, key, item_id, start_price).closed,
{
}

/// The sums that the decisions on records alone need.
pub proof fn sums_of_decisions(
    bidder_key: PublicKey,
    bidder: Option<ParticipantView>,
    auction: Option<AuctionView>,
    other: Option<ParticipantView>,
    value: nat,
)
    ensures
        ({
            let last = auction->0.bidding[auction->0.bidding.len() - 1];
            let own = last.bidder_key == bidder_key;
            let decided = bidder is Some && auction is Some && !auction->0.closed;
            let accepted = decided && value + bidder->0.reserved <= bidder->0.balance && value > (
            if auction->0.bidding.len() == 0 {
                auction->0.start_price as int
            } else {
                last.value as int
            });
            bid_adds_up(bidder_key, bidder, auction, other, value) <==> {
                &&& decided ==> bidder->0.reserved <= bidder->0.balance
                &&& accepted && auction->0.bidding.len() > 0 && own ==> last.value
                    <= bidder->0.reserved
                &&& accepted && auction->0.bidding.len() > 0 && !own ==> other is Some
                    && last.value <= other->0.reserved
            }
        }),
        ({
            let last = auction->0.bidding[auction->0.bidding.len() - 1];
            let payer = if last.bidder_key == auction->0.auctioner_key {
                bidder
            } else {
                other
            };
            closing_adds_up(auction, bidder, other) <==> (auction is Some
                && auction->0.bidding.len() > 0 ==> {
                &&& bidder is Some
                &&& payer is Some
                &&& last.value <= payer->0.reserved
                &&& last.value <= payer->0.balance
                &&& bidder->0.balance + last.value <= 0xffff_ffff_ffff_ffff
            })
        }),
{
}

/// Of two bids that an auction accepts, the later one is higher.
pub proof fn accepted_bids_rise(
    ledger: Ledger,
    bidder_key: PublicKey,
    auction_id: nat,
    value: u64,
    rival_key: PublicKey,
    rival_value: u64,
)
    requires
        ledger.bid(bidder_key, auction_id, value) is Ok,
        ledger.auctions[auction_id as int].id == auction_id,
        ledger.bid(bidder_key, auction_id, value)->Ok_0.bid(rival_key, auction_id, rival_value)
            is Ok,
    ensures
        rival_value > value,
{
}

} // verus!
