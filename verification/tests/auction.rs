//! Participants, items, auctions and bids, from registration to payment.

use auction_ledger::auction::data::{Auction, Bid, Item, Participant};
use auction_ledger::auction::error::Error;
use auction_ledger::auction::ledger::INIT_BALANCE;
use auction_ledger::auction::schema::{
    AuctionSchema, AUCTIONS_TABLE, ITEMS_TABLE, PARTICIPANTS_TABLE,
};
use auction_ledger::auction::service::{AuctionService, SERVICE_ID, SERVICE_NAME};
use auction_ledger::auction::transactions::{
    TxBid, TxCloseAuction, TxNewAuction, TxNewItem, TxNewParticipant,
};
use auction_ledger::crypto::PublicKey;
use auction_ledger::execution::ExecutionError;
use auction_ledger::storage::{ListIndex, MapIndex};

fn key(n: u8) -> PublicKey {
    PublicKey::new([n; 32])
}

fn join(schema: &mut AuctionSchema, n: u8) {
    let tx = TxNewParticipant { pub_key: key(n), name: format!("participant {}", n) };
    assert_eq!(tx.execute(schema), Ok(()));
}

fn create_item(schema: &mut AuctionSchema, owner: u8) {
    let tx = TxNewItem { owner_key: key(owner), desc: "clock".into(), url: "u".into() };
    assert_eq!(tx.execute(schema), Ok(()));
}

fn open_auction(schema: &mut AuctionSchema, auctioner: u8, item_id: u64, start_price: u64) {
    let tx = TxNewAuction { auctioner_key: key(auctioner), item_id, start_price };
    assert_eq!(tx.execute(schema), Ok(()));
}

fn bid(schema: &mut AuctionSchema, bidder: u8, auction_id: u64, value: u64) -> Result<(), Error> {
    TxBid { bidder_key: key(bidder), auction_id, value }.execute(schema)
}

fn close(schema: &mut AuctionSchema, auction_id: u64) -> Result<(), Error> {
    TxCloseAuction { auction_id }.execute(schema)
}

fn funds(schema: &AuctionSchema, n: u8) -> (u64, u64) {
    let participant = schema.participant(&key(n)).unwrap();
    (participant.balance(), participant.reserved())
}

/// Three participants; the first sells one item, starting at ten.
fn market() -> AuctionSchema {
    let mut schema = AuctionSchema::empty();
    join(&mut schema, 1);
    join(&mut schema, 2);
    join(&mut schema, 3);
    create_item(&mut schema, 1);
    open_auction(&mut schema, 1, 0, 10);
    schema
}

#[test]
fn reserve_release_increase_decrease() {
    let p = Participant::new(&key(1), "Ann", 100, 5);
    let p = p.reserve(7);
    assert_eq!((p.balance(), p.reserved()), (100, 12));
    let p = p.release(12);
    assert_eq!((p.balance(), p.reserved()), (100, 0));
    let p = p.increase(11);
    assert_eq!((p.balance(), p.reserved()), (111, 0));
    let p = p.decrease(111);
    assert_eq!((p.balance(), p.reserved()), (0, 0));
    assert_eq!(p.name(), "Ann");
    assert_eq!(*p.pub_key(), key(1));
}

#[test]
fn release_takes_a_reserve_back() {
    let p = Participant::new(&key(1), "Ann", 100, 5);
    assert_eq!(p.clone().reserve(9).release(9), p);
    assert_eq!(p.clone().increase(9).decrease(9), p);
}

#[test]
fn auction_gains_bids_and_closes() {
    let a = Auction::new(3, &key(1), 7, 10, vec![], false);
    assert_eq!(a.last_bid(), None);
    let a = a.bid(Bid::new(&key(2), 11)).bid(Bid::new(&key(3), 12));
    assert_eq!(a.bidding(), vec![Bid::new(&key(2), 11), Bid::new(&key(3), 12)]);
    assert_eq!(a.last_bid(), Some(Bid::new(&key(3), 12)));
    assert!(!a.closed());
    let a = a.close();
    assert!(a.closed());
    assert_eq!(a.bidding().len(), 2);
    assert_eq!((a.id(), a.item_id(), a.start_price()), (3, 7, 10));
    assert_eq!(*a.auctioner_key(), key(1));
}

#[test]
fn registration_gives_the_initial_balance() {
    let mut schema = AuctionSchema::empty();
    join(&mut schema, 1);
    let p = schema.participant(&key(1)).unwrap();
    assert_eq!(p, Participant::new(&key(1), "participant 1", 100, 0));
    assert_eq!(INIT_BALANCE, 100);
    assert_eq!(schema.participants().iter().len(), 1);
    assert!(schema.participant(&key(2)).is_none());
}

#[test]
fn a_key_is_registered_once() {
    let mut schema = AuctionSchema::empty();
    join(&mut schema, 1);
    let again = TxNewParticipant { pub_key: key(1), name: "other".into() };
    assert_eq!(again.execute(&mut schema), Err(Error::ParticipantAlreadyRegistered));
    assert_eq!(schema.participant(&key(1)).unwrap().name(), "participant 1");
    assert_eq!(schema.participants().iter().len(), 1);
}

#[test]
fn items_are_numbered_in_turn() {
    let mut schema = AuctionSchema::empty();
    join(&mut schema, 1);
    create_item(&mut schema, 1);
    create_item(&mut schema, 1);
    assert_eq!(schema.items().len(), 2);
    assert_eq!(schema.item(1), Some(Item::new(1, &key(1), "clock", "u")));
    assert_eq!(schema.item(0).unwrap().id(), 0);
    assert_eq!(schema.item(0).unwrap().desc(), "clock");
    assert_eq!(schema.item(0).unwrap().url(), "u");
    assert!(schema.item(2).is_none());
}

#[test]
fn an_item_needs_a_registered_owner() {
    let mut schema = AuctionSchema::empty();
    let tx = TxNewItem { owner_key: key(1), desc: "clock".into(), url: "u".into() };
    assert_eq!(tx.execute(&mut schema), Err(Error::ParticipantIsNotRegistered));
    assert_eq!(schema.items().len(), 0);
}

#[test]
fn opening_an_auction_is_checked() {
    let mut schema = AuctionSchema::empty();
    let tx = TxNewAuction { auctioner_key: key(1), item_id: 0, start_price: 10 };
    assert_eq!(tx.execute(&mut schema), Err(Error::ParticipantIsNotRegistered));
    join(&mut schema, 1);
    assert_eq!(tx.execute(&mut schema), Err(Error::ItemNotFound));
    join(&mut schema, 2);
    create_item(&mut schema, 2);
    assert_eq!(tx.execute(&mut schema), Err(Error::ItemNotOwned));
    assert_eq!(schema.auctions().len(), 0);
    let tx = TxNewAuction { auctioner_key: key(2), item_id: 0, start_price: 10 };
    assert_eq!(tx.execute(&mut schema), Ok(()));
    assert_eq!(schema.auction(0), Some(Auction::new(0, &key(2), 0, 10, vec![], false)));
}

#[test]
fn an_item_may_be_in_two_auctions() {
    let mut schema = market();
    open_auction(&mut schema, 1, 0, 20);
    assert_eq!(schema.auction(1).unwrap().item_id(), 0);
    assert_eq!(schema.auction(1).unwrap().id(), 1);
}

#[test]
fn bids_are_checked_in_order() {
    let mut schema = market();
    assert_eq!(bid(&mut schema, 9, 7, 5), Err(Error::ParticipantIsNotRegistered));
    assert_eq!(bid(&mut schema, 2, 7, 5), Err(Error::AuctionNotFound));
    assert_eq!(bid(&mut schema, 2, 0, 101), Err(Error::InsufficientFunds));
    assert_eq!(bid(&mut schema, 2, 0, 10), Err(Error::BidTooLow));
    assert_eq!(bid(&mut schema, 2, 0, 11), Ok(()));
    assert_eq!(bid(&mut schema, 3, 0, 11), Err(Error::BidTooLow));
    assert_eq!(close(&mut schema, 0), Ok(()));
    assert_eq!(bid(&mut schema, 3, 0, 500), Err(Error::AuctionClosed));
    assert_eq!(bid(&mut schema, 9, 0, 500), Err(Error::ParticipantIsNotRegistered));
}

#[test]
fn want_of_funds_comes_before_a_low_bid() {
    let mut schema = AuctionSchema::empty();
    join(&mut schema, 1);
    join(&mut schema, 2);
    create_item(&mut schema, 1);
    open_auction(&mut schema, 1, 0, 1000);
    assert_eq!(bid(&mut schema, 2, 0, 200), Err(Error::InsufficientFunds));
    assert_eq!(bid(&mut schema, 2, 0, 100), Err(Error::BidTooLow));
}

#[test]
fn a_refused_bid_changes_nothing() {
    let mut schema = market();
    assert_eq!(bid(&mut schema, 2, 0, 40), Ok(()));
    assert_eq!(bid(&mut schema, 3, 0, 40), Err(Error::BidTooLow));
    assert_eq!(funds(&schema, 2), (100, 40));
    assert_eq!(funds(&schema, 3), (100, 0));
    assert_eq!(schema.auction(0).unwrap().bidding(), vec![Bid::new(&key(2), 40)]);
}

#[test]
fn an_outbid_participant_gets_the_reserve_back() {
    let mut schema = market();
    assert_eq!(bid(&mut schema, 2, 0, 40), Ok(()));
    assert_eq!(funds(&schema, 2), (100, 40));
    assert_eq!(bid(&mut schema, 3, 0, 41), Ok(()));
    assert_eq!(funds(&schema, 2), (100, 0));
    assert_eq!(funds(&schema, 3), (100, 41));
    assert_eq!(
        schema.auction(0).unwrap().bidding(),
        vec![Bid::new(&key(2), 40), Bid::new(&key(3), 41)]
    );
}

#[test]
fn reserves_bind_funds_across_auctions() {
    let mut schema = market();
    create_item(&mut schema, 3);
    open_auction(&mut schema, 3, 1, 0);
    assert_eq!(bid(&mut schema, 2, 0, 70), Ok(()));
    assert_eq!(bid(&mut schema, 2, 1, 31), Err(Error::InsufficientFunds));
    assert_eq!(bid(&mut schema, 2, 1, 30), Ok(()));
    assert_eq!(funds(&schema, 2), (100, 100));
}

#[test]
fn a_bidder_may_raise_their_own_bid() {
    let mut schema = market();
    assert_eq!(bid(&mut schema, 2, 0, 20), Ok(()));
    assert_eq!(bid(&mut schema, 2, 0, 50), Ok(()));
    assert_eq!(funds(&schema, 2), (100, 50));
    assert_eq!(
        schema.auction(0).unwrap().bidding(),
        vec![Bid::new(&key(2), 20), Bid::new(&key(2), 50)]
    );
    // What is in reserve for the bid before does not count as available.
    assert_eq!(bid(&mut schema, 2, 0, 51), Err(Error::InsufficientFunds));
    assert_eq!(close(&mut schema, 0), Ok(()));
    assert_eq!(funds(&schema, 2), (50, 0));
    assert_eq!(funds(&schema, 1), (150, 0));
}

#[test]
fn the_auctioner_may_bid() {
    let mut schema = market();
    assert_eq!(bid(&mut schema, 1, 0, 20), Ok(()));
    assert_eq!(funds(&schema, 1), (100, 20));
}

#[test]
fn the_winner_pays_the_auctioner() {
    let mut schema = market();
    assert_eq!(bid(&mut schema, 2, 0, 20), Ok(()));
    assert_eq!(bid(&mut schema, 3, 0, 60), Ok(()));
    assert_eq!(close(&mut schema, 0), Ok(()));
    assert_eq!(funds(&schema, 1), (160, 0));
    assert_eq!(funds(&schema, 2), (100, 0));
    assert_eq!(funds(&schema, 3), (40, 0));
    assert!(schema.auction(0).unwrap().closed());
    assert_eq!(*schema.item(0).unwrap().owner_key(), key(1));
}

#[test]
fn an_auction_without_bids_closes_without_payment() {
    let mut schema = market();
    assert_eq!(close(&mut schema, 0), Ok(()));
    assert!(schema.auction(0).unwrap().closed());
    assert_eq!(funds(&schema, 1), (100, 0));
}

#[test]
fn closing_needs_an_auction() {
    let mut schema = market();
    assert_eq!(close(&mut schema, 1), Err(Error::AuctionNotFound));
    assert_eq!(close(&mut AuctionSchema::empty(), 0), Err(Error::AuctionNotFound));
}

#[test]
fn an_auctioner_who_wins_pays_themselves() {
    let mut schema = market();
    assert_eq!(bid(&mut schema, 1, 0, 20), Ok(()));
    assert_eq!(close(&mut schema, 0), Ok(()));
    assert!(schema.auction(0).unwrap().closed());
    assert_eq!(funds(&schema, 1), (100, 0));
}

#[test]
fn closing_again_is_paid_again() {
    let mut schema = market();
    create_item(&mut schema, 1);
    open_auction(&mut schema, 1, 1, 0);
    assert_eq!(bid(&mut schema, 2, 0, 20), Ok(()));
    assert_eq!(bid(&mut schema, 2, 1, 30), Ok(()));
    assert_eq!(close(&mut schema, 0), Ok(()));
    assert_eq!(funds(&schema, 2), (80, 30));
    assert_eq!(close(&mut schema, 0), Ok(()));
    assert_eq!(funds(&schema, 2), (60, 10));
    assert_eq!(funds(&schema, 1), (140, 0));
    // What is left in reserve does not cover the other bid any more.
    let tx = TxCloseAuction { auction_id: 1 };
    let auction = schema.auction(1);
    assert!(!tx.adds_up(&auction, &schema.participant(&key(1)), &schema.participant(&key(2))));
}

#[test]
fn money_is_only_moved() {
    let mut schema = market();
    let total = |schema: &AuctionSchema| -> u64 {
        schema.participants().iter().iter().map(|row| row.1.balance()).sum()
    };
    assert_eq!(total(&schema), 300);
    assert_eq!(bid(&mut schema, 2, 0, 20), Ok(()));
    assert_eq!(bid(&mut schema, 3, 0, 60), Ok(()));
    assert_eq!(total(&schema), 300);
    assert_eq!(close(&mut schema, 0), Ok(()));
    assert_eq!(total(&schema), 300);
}

#[test]
fn decisions_are_made_on_records() {
    let seller = Participant::new(&key(1), "Ann", 100, 0);
    let buyer = Participant::new(&key(2), "Ben", 100, 25);
    let auction = Auction::new(4, &key(1), 0, 10, vec![Bid::new(&key(2), 25)], false);

    let tx = TxBid { bidder_key: key(1), auction_id: 4, value: 26 };
    let (b, a, o) = (Some(seller.clone()), Some(auction.clone()), Some(buyer.clone()));
    assert!(tx.adds_up(&b, &a, &o));
    let placed = tx.place(b, a, o).unwrap();
    assert_eq!(placed.auction.last_bid(), Some(Bid::new(&key(1), 26)));
    assert_eq!(placed.bidder.reserved(), 26);
    let outbid = placed.outbid.unwrap();
    assert_eq!(outbid.key, key(2));
    assert_eq!(outbid.participant.reserved(), 0);
    assert!(!tx.adds_up(&Some(seller.clone()), &Some(auction.clone()), &None));

    let raise = TxBid { bidder_key: key(2), auction_id: 4, value: 30 };
    assert!(raise.adds_up(&Some(buyer.clone()), &Some(auction.clone()), &Some(buyer.clone())));
    let (b, a) = (Some(buyer.clone()), Some(auction.clone()));
    let placed = raise.place(b, a, Some(buyer.clone())).unwrap();
    assert_eq!(placed.bidder, Participant::new(&key(2), "Ben", 100, 30));
    assert!(placed.outbid.is_none());

    let tx = TxCloseAuction { auction_id: 4 };
    let (a, s, w) = (Some(auction), Some(seller), Some(buyer));
    assert!(tx.adds_up(&a, &s, &w));
    let settlement = tx.settle(a, s, w).unwrap();
    assert!(settlement.auction.closed());
    let payment = settlement.payment.unwrap();
    assert_eq!(payment.auctioner.key, key(1));
    assert_eq!(payment.auctioner.participant.balance(), 125);
    assert_eq!(payment.winner.key, key(2));
    assert_eq!(payment.winner.participant, Participant::new(&key(2), "Ben", 75, 0));
    assert_eq!(tx.settle(None, None, None).unwrap_err(), Error::AuctionNotFound);
}

#[test]
fn sums_that_do_not_come_out_are_told() {
    let tx = TxBid { bidder_key: key(2), auction_id: 0, value: 20 };
    let auction = Auction::new(0, &key(1), 0, 10, vec![], false);
    let overdrawn = Participant::new(&key(2), "Ben", 10, 11);
    assert!(!tx.adds_up(&Some(overdrawn), &Some(auction.clone()), &None));
    let rich = Participant::new(&key(1), "Ann", u64::MAX, 0);
    let winner = Participant::new(&key(2), "Ben", 1, 1);
    let sold = auction.bid(Bid::new(&key(2), 1));
    let tx = TxCloseAuction { auction_id: 0 };
    assert!(!tx.adds_up(&Some(sold), &Some(rich), &Some(winner)));
}

#[test]
fn transactions_are_verified_by_their_signatures() {
    let tx = TxNewParticipant { pub_key: key(1), name: String::new() };
    assert_eq!((*tx.signer(), tx.verify(true), tx.verify(false)), (key(1), true, false));
    let tx = TxNewItem { owner_key: key(2), desc: String::new(), url: String::new() };
    assert_eq!((*tx.signer(), tx.verify(true), tx.verify(false)), (key(2), true, false));
    let tx = TxNewAuction { auctioner_key: key(3), item_id: 0, start_price: 0 };
    assert_eq!((*tx.signer(), tx.verify(true), tx.verify(false)), (key(3), true, false));
    let tx = TxBid { bidder_key: key(4), auction_id: 0, value: 0 };
    assert_eq!((*tx.signer(), tx.verify(true), tx.verify(false)), (key(4), true, false));
    assert!(TxCloseAuction { auction_id: 0 }.verify());
}

#[test]
fn errors_have_codes_and_descriptions() {
    let all = [
        (Error::ParticipantAlreadyRegistered, "Participant is already registered"),
        (Error::ParticipantIsNotRegistered, "Participant is not registered"),
        (Error::ItemNotFound, "Item doesn't exist"),
        (Error::ItemNotOwned, "You do not own of the item"),
        (Error::AuctionNotFound, "Auction does not exist"),
        (Error::AuctionClosed, "Auction is closed"),
        (Error::BidTooLow, "Bid is below the current highest bid"),
        (Error::InsufficientFunds, "Insufficient funds"),
    ];
    for (i, (error, text)) in all.iter().enumerate() {
        let reported = ExecutionError::from(*error);
        assert_eq!(reported.code as usize, i);
        assert_eq!(reported.description.as_deref(), Some(*text));
        assert_eq!(error.code() as usize, i);
        assert_eq!(error.description(), *text);
    }
}

#[test]
fn schema_is_made_of_its_tables() {
    let mut participants = MapIndex::new();
    participants.put(key(5), Participant::new(&key(5), "Eve", 1, 0));
    let mut items = ListIndex::new();
    items.push(Item::new(0, &key(5), "d", "u"));
    let mut schema = AuctionSchema::new(participants, items, ListIndex::new());
    assert_eq!(schema.participant(&key(5)).unwrap().balance(), 1);
    assert_eq!(schema.item(0).unwrap().desc(), "d");
    assert_eq!(schema.auctions().len(), 0);
    schema.participants_mut().put(key(5), Participant::new(&key(5), "Eve", 2, 0));
    schema.items_mut().set(0, Item::new(0, &key(5), "e", "u"));
    schema.auctions_mut().push(Auction::new(0, &key(5), 0, 1, vec![], true));
    assert_eq!(schema.participant(&key(5)).unwrap().balance(), 2);
    assert_eq!(schema.item(0).unwrap().desc(), "e");
    assert!(schema.auction(0).unwrap().closed());
}

#[test]
fn tables_and_service_have_their_names() {
    assert_eq!(PARTICIPANTS_TABLE, "platform.participants");
    assert_eq!(ITEMS_TABLE, "platform.items");
    assert_eq!(AUCTIONS_TABLE, "platform.auctions");
    let service = AuctionService::new();
    assert_eq!(service.service_name(), "auction");
    assert_eq!(service.service_id(), 1);
    assert_eq!((SERVICE_NAME, SERVICE_ID), ("auction", 1));
    assert_eq!(service.state_hash().len(), 0);
}
