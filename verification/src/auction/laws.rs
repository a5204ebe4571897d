//! What holds of the auction service whatever transactions it is given.

use vstd::prelude::*;

use super::data::{AuctionView, Bid, ParticipantView};
use super::error::Error;
use super::ledger::{Ledger, INIT_BALANCE};
use crate::crypto::PublicKey;

verus! {

/// A transaction of the auction service.
pub enum Change {
    NewParticipant { pub_key: PublicKey, name: Seq<char> },
    NewItem { owner_key: PublicKey, desc: Seq<char>, url: Seq<char> },
    NewAuction { auctioner_key: PublicKey, item_id: nat, start_price: nat },
    Bid { bidder_key: PublicKey, auction_id: nat, value: u64 },
    CloseAuction { auction_id: nat },
}

/// What an auction holds of the participant's funds: the last bid, as long as the
/// auction is open and the bid is theirs.
pub open spec fn held_in(auction: AuctionView, key: PublicKey) -> nat {
    match auction.last_bid() {
        Some(bid) => if !auction.closed && bid.bidder_key == key {
            bid.value as nat
        } else {
            0
        },
        None => 0,
    }
}

/// What all auctions together hold of the participant's funds.
pub open spec fn held(auctions: Seq<AuctionView>, key: PublicKey) -> nat
    decreases auctions.len(),
{
    if auctions.len() == 0 {
        0
    } else {
        held(auctions.drop_last(), key) + held_in(auctions.last(), key)
    }
}

/// What all participants together own.
pub open spec fn total_balance(participants: Map<PublicKey, ParticipantView>) -> nat
    decreases participants.dom().len(),
    when participants.dom().finite()
{
    if participants.dom().len() == 0 {
        0
    } else {
        let key = participants.dom().choose();
        participants[key].balance + total_balance(participants.remove(key))
    }
}

/// Tells whether each bid of an auction exceeds the one before, and the first one
/// the starting price.
pub open spec fn rising(auction: AuctionView) -> bool {
    &&& forall|i: int, j: int|
        0 <= i < j < auction.bidding.len() ==> (#[trigger] auction.bidding[i]).value < (
        #[trigger] auction.bidding[j]).value
    &&& forall|i: int|
        0 <= i < auction.bidding.len() ==> auction.start_price < (
        #[trigger] auction.bidding[i]).value
}

impl Ledger {
    /// What the transaction makes of the ledger.
    pub open spec fn apply(self, change: Change) -> Result<Ledger, Error> {
        match change {
            Change::NewParticipant { pub_key, name } => self.new_participant(pub_key, name),
            Change::NewItem { owner_key, desc, url } => self.new_item(owner_key, desc, url),
            Change::NewAuction { auctioner_key, item_id, start_price } => self.new_auction(
                auctioner_key,
                item_id,
                start_price,
            ),
            Change::Bid { bidder_key, auction_id, value } => self.bid(
                bidder_key,
                auction_id,
                value,
            ),
            Change::CloseAuction { auction_id } => self.close_auction(auction_id),
        }
    }

    /// Tells whether the transaction runs to its end without an impossible sum or a
    /// missing record.
    pub open spec fn runs(self, change: Change) -> bool {
        match change {
            Change::Bid { bidder_key, auction_id, value } => self.bid_runs(
                bidder_key,
                auction_id,
                value as nat,
            ),
            Change::CloseAuction { auction_id } => self.close_runs(auction_id),
            _ => true,
        }
    }

    /// Tells whether a participant's record is in order: it has their key, and they
    /// own what they have in reserve, which covers what the auctions hold of it.
    pub open spec fn sound_participant(self, key: PublicKey) -> bool {
        &&& self.participants[key].pub_key == key
        &&& self.participants[key].reserved <= self.participants[key].balance
        &&& held(self.auctions, key) <= self.participants[key].reserved
    }

    /// Tells whether an item's record is in order: it has its number, and its owner is
    /// registered.
    pub open spec fn sound_item(self, i: int) -> bool {
        &&& self.items[i].id == i
        &&& self.participants.contains_key(self.items[i].owner_key)
    }

    /// Tells whether an auction's record is in order: it has its number, it sells an
    /// item of the auctioner, all who bid are registered, and the bids rise.
    pub open spec fn sound_auction(self, i: int) -> bool {
        let auction = self.auctions[i];
        &&& auction.id == i
        &&& auction.item_id < self.items.len()
        &&& self.items[auction.item_id as int].owner_key == auction.auctioner_key
        &&& forall|j: int|
            0 <= j < auction.bidding.len() ==> self.participants.contains_key(
                (#[trigger] auction.bidding[j]).bidder_key,
            )
        &&& rising(auction)
    }

    /// Tells whether every auction's record has the number of the auction.
    pub open spec fn numbered(self) -> bool {
        forall|i: int| 0 <= i < self.auctions.len() ==> (#[trigger] self.auctions[i]).id == i
    }

    /// Tells whether all records are in order and the participants together own what they
    /// were given.
    pub open spec fn sound(self) -> bool {
        &&& self.participants.dom().finite()
        &&& forall|key: PublicKey| #[trigger]
            self.participants.contains_key(key) ==> self.sound_participant(key)
        &&& forall|i: int| 0 <= i < self.items.len() ==> #[trigger] self.sound_item(i)
        &&& forall|i: int| 0 <= i < self.auctions.len() ==> #[trigger] self.sound_auction(i)
        &&& total_balance(self.participants) == INIT_BALANCE * self.participants.dom().len()
    }

    /// Tells whether every participant has in reserve exactly what the auctions hold of
    /// their funds.
    pub open spec fn exact_reserves(self) -> bool {
        forall|key: PublicKey| #[trigger]
            self.participants.contains_key(key) ==> self.participants[key].reserved == held(
                self.auctions,
                key,
            )
    }

    /// Tells whether the transaction closes an auction that is closed and paid already,
    /// so that the winner pays again.
    pub open spec fn pays_again(self, change: Change) -> bool {
        match change {
            Change::CloseAuction { auction_id } => match self.auction(auction_id) {
                Some(auction) => auction.closed && auction.last_bid() is Some,
                None => false,
            },
            _ => false,
        }
    }

    /// Tells whether the transaction makes a winner pay again, out of a reserve that
    /// other auctions hold or that is not there.
    pub open spec fn overdraws(self, change: Change) -> bool {
        match change {
            Change::CloseAuction { auction_id } => {
                let bid = self.auctions[auction_id as int].last_bid()->0;
                &&& self.pays_again(change)
                &&& held(self.auctions, bid.bidder_key) + bid.value
                    > self.participants[bid.bidder_key].reserved
            },
            _ => false,
        }
    }
}

/// What all auctions hold after one of them has changed.
proof fn held_after_update(
    auctions: Seq<AuctionView>,
    i: int,
    auction: AuctionView,
    key: PublicKey,
)
    requires
        0 <= i < auctions.len(),
    ensures
        held(auctions.update(i, auction), key) == held(auctions, key) - held_in(auctions[i], key)
            + held_in(auction, key),
    decreases auctions.len(),
{
    let after = auctions.update(i, auction);
    if i == auctions.len() - 1 {
        assert(after.drop_last() =~= auctions.drop_last());
    } else {
        assert(after.drop_last() =~= auctions.drop_last().update(i, auction));
        held_after_update(auctions.drop_last(), i, auction, key);
    }
}

/// One auction holds no more than all of them together.
proof fn held_in_one(auctions: Seq<AuctionView>, i: int, key: PublicKey)
    requires
        0 <= i < auctions.len(),
    ensures
        held_in(auctions[i], key) <= held(auctions, key),
    decreases auctions.len(),
{
    if i < auctions.len() - 1 {
        held_in_one(auctions.drop_last(), i, key);
    }
}

/// Whoever has bid in no auction has nothing held.
proof fn held_of_nobody(auctions: Seq<AuctionView>, key: PublicKey)
    requires
        forall|i: int|
            0 <= i < auctions.len() && (#[trigger] auctions[i]).bidding.len() > 0
                ==> auctions[i].bidding.last().bidder_key != key,
    ensures
        held(auctions, key) == 0,
    decreases auctions.len(),
{
    if auctions.len() > 0 {
        assert forall|i: int|
            0 <= i < auctions.drop_last().len() && (
            #[trigger] auctions.drop_last()[i]).bidding.len()
                > 0 implies auctions.drop_last()[i].bidding.last().bidder_key != key by {
            assert(auctions.drop_last()[i] == auctions[i]);
        }
        held_of_nobody(auctions.drop_last(), key);
        assert(auctions.last() == auctions[auctions.len() - 1]);
    }
}

/// Any one participant may be set apart in the total.
proof fn total_less_one(participants: Map<PublicKey, ParticipantView>, key: PublicKey)
    requires
        participants.dom().finite(),
        participants.contains_key(key),
    ensures
        total_balance(participants) == participants[key].balance + total_balance(
            participants.remove(key),
        ),
    decreases participants.dom().len(),
{
    let first = participants.dom().choose();
    assert(participants.dom().contains(first));
    if first != key {
        let rest = participants.remove(first);
        assert(rest.dom() =~= participants.dom().remove(first));
        total_less_one(rest, key);
        let without = participants.remove(key);
        assert(without.dom() =~= participants.dom().remove(key));
        assert(without.contains_key(first));
        total_less_one(without, first);
        assert(rest.remove(key) =~= without.remove(first));
    }
}

/// What all participants own after one record has been written.
proof fn total_after_insert(
    participants: Map<PublicKey, ParticipantView>,
    key: PublicKey,
    participant: ParticipantView,
)
    requires
        participants.dom().finite(),
    ensures
        participants.insert(key, participant).dom().finite(),
        participants.insert(key, participant).dom().len() == participants.dom().len() + (
        if participants.contains_key(key) {
            0int
        } else {
            1
        }),
        total_balance(participants.insert(key, participant)) == total_balance(participants)
            + participant.balance - (if participants.contains_key(key) {
            participants[key].balance as int
        } else {
            0
        }),
{
    let after = participants.insert(key, participant);
    assert(after.dom() =~= participants.dom().insert(key));
    total_less_one(after, key);
    if participants.contains_key(key) {
        total_less_one(participants, key);
        assert(after.remove(key) =~= participants.remove(key));
    } else {
        assert(after.remove(key) =~= participants);
    }
}

/// A service that has not seen any transaction is sound.
pub proof fn initial_ledger_is_sound()
    ensures
        Ledger::initial().sound(),
        Ledger::initial().exact_reserves(),
{
}

/// Every transaction keeps the ledger sound, unless it makes a winner pay again out
/// of a reserve that is spoken for.
pub proof fn soundness_is_kept(ledger: Ledger, change: Change)
    requires
        ledger.sound(),
        ledger.apply(change) is Ok,
        !ledger.overdraws(change),
    ensures
        ledger.apply(change)->Ok_0.sound(),
{
    match change {
        Change::NewParticipant { pub_key, name } => {
            registration_is_sound(ledger, pub_key, name);
        },
        Change::NewItem { owner_key, desc, url } => {
            new_item_is_sound(ledger, owner_key, desc, url);
        },
        Change::NewAuction { auctioner_key, item_id, start_price } => {
            new_auction_is_sound(ledger, auctioner_key, item_id, start_price);
        },
        Change::Bid { bidder_key, auction_id, value } => {
            bid_is_sound(ledger, bidder_key, auction_id, value);
        },
        Change::CloseAuction { auction_id } => {
            closing_is_sound(ledger, auction_id);
        },
    }
}

proof fn registration_is_sound(ledger: Ledger, pub_key: PublicKey, name: Seq<char>)
    requires
        ledger.sound(),
        ledger.new_participant(pub_key, name) is Ok,
    ensures
        ledger.new_participant(pub_key, name)->Ok_0.sound(),
{
    let next = ledger.new_participant(pub_key, name)->Ok_0;
    total_after_insert(ledger.participants, pub_key, next.participants[pub_key]);
    assert(held(ledger.auctions, pub_key) == 0) by {
        assert forall|i: int|
            0 <= i < ledger.auctions.len() && (#[trigger] ledger.auctions[i]).bidding.len()
                > 0 implies ledger.auctions[i].bidding.last().bidder_key != pub_key by {
            assert(ledger.sound_auction(i));
        }
        held_of_nobody(ledger.auctions, pub_key);
    }
    assert forall|key: PublicKey| #[trigger]
        next.participants.contains_key(key) implies next.sound_participant(key) by {
        if key != pub_key {
            assert(ledger.participants.contains_key(key));
        }
    }
    assert forall|i: int| 0 <= i < next.items.len() implies #[trigger] next.sound_item(i) by {
        assert(ledger.sound_item(i));
    }
    assert forall|i: int| 0 <= i < next.auctions.len() implies #[trigger] next.sound_auction(
        i,
    ) by {
        assert(ledger.sound_auction(i));
    }
    assert(INIT_BALANCE * (ledger.participants.dom().len() + 1) == INIT_BALANCE
        * ledger.participants.dom().len() + INIT_BALANCE) by (nonlinear_arith);
}

proof fn new_item_is_sound(
    ledger: Ledger,
    owner_key: PublicKey,
    desc: Seq<char>,
    url: Seq<char>,
)
    requires
        ledger.sound(),
        ledger.new_item(owner_key, desc, url) is Ok,
    ensures
        ledger.new_item(owner_key, desc, url)->Ok_0.sound(),
{
    let next = ledger.new_item(owner_key, desc, url)->Ok_0;
    assert forall|key: PublicKey| #[trigger]
        next.participants.contains_key(key) implies next.sound_participant(key) by {
        assert(ledger.participants.contains_key(key));
    }
    assert forall|i: int| 0 <= i < next.items.len() implies #[trigger] next.sound_item(i) by {
        if i < ledger.items.len() {
            assert(ledger.sound_item(i));
        }
    }
    assert forall|i: int| 0 <= i < next.auctions.len() implies #[trigger] next.sound_auction(
        i,
    ) by {
        assert(ledger.sound_auction(i));
    }
}

proof fn new_auction_is_sound(
    ledger: Ledger,
    auctioner_key: PublicKey,
    item_id: nat,
    start_price: nat,
)
    requires
        ledger.sound(),
        ledger.new_auction(auctioner_key, item_id, start_price) is Ok,
    ensures
        ledger.new_auction(auctioner_key, item_id, start_price)->Ok_0.sound(),
{
    let next = ledger.new_auction(auctioner_key, item_id, start_price)->Ok_0;
    assert(ledger.participants.contains_key(auctioner_key));
    assert(ledger.sound_participant(auctioner_key));
    assert(ledger.sound_item(item_id as int));
    assert(next.auctions.drop_last() =~= ledger.auctions);
    assert forall|key: PublicKey| #[trigger]
        next.participants.contains_key(key) implies next.sound_participant(key) by {
        assert(ledger.participants.contains_key(key));
    }
    assert forall|i: int| 0 <= i < next.items.len() implies #[trigger] next.sound_item(i) by {
        assert(ledger.sound_item(i));
    }
    assert forall|i: int| 0 <= i < next.auctions.len() implies #[trigger] next.sound_auction(
        i,
    ) by {
        if i < ledger.auctions.len() {
            assert(ledger.sound_auction(i));
        }
    }
}

proof fn bid_is_sound(ledger: Ledger, bidder_key: PublicKey, auction_id: nat, value: u64)
    requires
        ledger.sound(),
        ledger.bid(bidder_key, auction_id, value) is Ok,
    ensures
        ledger.bid(bidder_key, auction_id, value)->Ok_0.sound(),
{
    let next = ledger.bid(bidder_key, auction_id, value)->Ok_0;
    let id = auction_id as int;
    let before = ledger.auctions[id];
    let after = next.auctions[id];
    assert(ledger.sound_auction(id));
    assert(ledger.participants.contains_key(bidder_key));
    assert(ledger.sound_participant(bidder_key));
    let released = ledger.with_outbid_released(auction_id);
    if before.bidding.len() > 0 {
        let outbid_key = before.bidding[before.bidding.len() - 1].bidder_key;
        assert(ledger.participants.contains_key(outbid_key));
        total_after_insert(ledger.participants, outbid_key, released[outbid_key]);
    }
    total_after_insert(released, bidder_key, next.participants[bidder_key]);
    assert forall|key: PublicKey| #[trigger]
        next.participants.contains_key(key) implies next.sound_participant(key) by {
        assert(ledger.participants.contains_key(key));
        held_after_update(ledger.auctions, id, after, key);
        held_in_one(ledger.auctions, id, key);
    }
    assert forall|i: int| 0 <= i < next.items.len() implies #[trigger] next.sound_item(i) by {
        assert(ledger.sound_item(i));
    }
    assert forall|i: int| 0 <= i < next.auctions.len() implies #[trigger] next.sound_auction(
        i,
    ) by {
        assert(ledger.sound_auction(i));
        if i == id {
            assert forall|j: int, k: int| 0 <= j < k < after.bidding.len() implies (
            #[trigger] after.bidding[j]).value < (#[trigger] after.bidding[k]).value by {
                if k == before.bidding.len() {
                    assert(before.bidding[j].value <= before.bidding.last().value);
                }
            }
        }
    }
}

proof fn closing_is_sound(ledger: Ledger, auction_id: nat)
    requires
        ledger.sound(),
        ledger.close_auction(auction_id) is Ok,
        !ledger.overdraws(Change::CloseAuction { auction_id }),
    ensures
        ledger.close_auction(auction_id)->Ok_0.sound(),
{
    let next = ledger.close_auction(auction_id)->Ok_0;
    let id = auction_id as int;
    let before = ledger.auctions[id];
    let after = next.auctions[id];
    assert(ledger.sound_auction(id));
    assert(ledger.sound_item(before.item_id as int));
    if before.bidding.len() > 0 {
        let bid = before.bidding[before.bidding.len() - 1];
        let seller = before.auctioner_key;
        let winner = bid.bidder_key;
        assert(ledger.participants.contains_key(seller));
        assert(ledger.participants.contains_key(winner));
        assert(ledger.sound_participant(winner));
        held_in_one(ledger.auctions, id, winner);
        let paid = ledger.participants.insert(
            seller,
            ledger.participants[seller].increase(bid.value as nat),
        );
        total_after_insert(ledger.participants, seller, paid[seller]);
        total_after_insert(paid, winner, next.participants[winner]);
    }
    assert forall|key: PublicKey| #[trigger]
        next.participants.contains_key(key) implies next.sound_participant(key) by {
        assert(ledger.participants.contains_key(key));
        held_after_update(ledger.auctions, id, after, key);
        held_in_one(ledger.auctions, id, key);
    }
    assert forall|i: int| 0 <= i < next.items.len() implies #[trigger] next.sound_item(i) by {
        assert(ledger.sound_item(i));
    }
    assert forall|i: int| 0 <= i < next.auctions.len() implies #[trigger] next.sound_auction(
        i,
    ) by {
        assert(ledger.sound_auction(i));
    }
}

/// On a sound ledger every transaction runs to its end, unless it makes a winner pay
/// again out of a reserve that is spoken for. For closing an auction, all the money
/// that was ever given out has to fit twice into a balance.
pub proof fn sound_ledgers_run(ledger: Ledger, change: Change)
    requires
        ledger.sound(),
        !ledger.overdraws(change),
        change is CloseAuction ==> 2 * INIT_BALANCE * ledger.participants.dom().len()
            <= u64::MAX,
    ensures
        ledger.runs(change),
{
    match change {
        Change::Bid { bidder_key, auction_id, value } => {
            let id = auction_id as int;
            if auction_id < ledger.auctions.len() && ledger.participants.contains_key(bidder_key) {
                let auction = ledger.auctions[id];
                assert(ledger.sound_auction(id));
                assert(ledger.sound_participant(bidder_key));
                if auction.bidding.len() > 0 {
                    let outbid_key = auction.bidding[auction.bidding.len() - 1].bidder_key;
                    assert(ledger.participants.contains_key(outbid_key));
                    assert(ledger.sound_participant(outbid_key));
                    held_in_one(ledger.auctions, id, outbid_key);
                }
            }
        },
        Change::CloseAuction { auction_id } => {
            let id = auction_id as int;
            if auction_id < ledger.auctions.len() {
                let auction = ledger.auctions[id];
                assert(ledger.sound_auction(id));
                assert(ledger.sound_item(auction.item_id as int));
                if auction.bidding.len() > 0 {
                    let winner = auction.bidding[auction.bidding.len() - 1].bidder_key;
                    assert(ledger.participants.contains_key(winner));
                    assert(ledger.sound_participant(winner));
                    held_in_one(ledger.auctions, id, winner);
                    total_less_one(ledger.participants, winner);
                    total_less_one(ledger.participants, auction.auctioner_key);
                    assert(2 * INIT_BALANCE * ledger.participants.dom().len() == 2 * (INIT_BALANCE
                        * ledger.participants.dom().len())) by (nonlinear_arith);
                }
            }
        },
        _ => {},
    }
}

/// What a transaction adds to the money that all participants own: a registration the
/// initial balance, and everything else nothing.
pub open spec fn money_added(change: Change) -> nat {
    match change {
        Change::NewParticipant { pub_key, name } => INIT_BALANCE as nat,
        _ => 0,
    }
}

/// Money is neither made nor lost in a transaction but for what [`money_added`] says.
pub proof fn money_is_conserved(ledger: Ledger, change: Change)
    requires
        ledger.participants.dom().finite(),
        ledger.runs(change),
        ledger.apply(change) is Ok,
    ensures
        total_balance(ledger.apply(change)->Ok_0.participants) == total_balance(
            ledger.participants,
        ) + money_added(change),
{
    let next = ledger.apply(change)->Ok_0;
    match change {
        Change::NewParticipant { pub_key, name } => {
            total_after_insert(ledger.participants, pub_key, next.participants[pub_key]);
        },
        Change::Bid { bidder_key, auction_id, value } => {
            let before = ledger.auctions[auction_id as int];
            let released = ledger.with_outbid_released(auction_id);
            if before.bidding.len() > 0 {
                let outbid_key = before.bidding.last().bidder_key;
                total_after_insert(ledger.participants, outbid_key, released[outbid_key]);
            }
            total_after_insert(released, bidder_key, next.participants[bidder_key]);
        },
        Change::CloseAuction { auction_id } => {
            let before = ledger.auctions[auction_id as int];
            if before.bidding.len() > 0 {
                let bid = before.bidding.last();
                let seller = before.auctioner_key;
                let paid = ledger.participants.insert(
                    seller,
                    ledger.participants[seller].increase(bid.value as nat),
                );
                total_after_insert(ledger.participants, seller, paid[seller]);
                total_after_insert(paid, bid.bidder_key, next.participants[bid.bidder_key]);
            }
        },
        _ => {},
    }
}

/// As long as no auction is paid twice, participants have in reserve exactly what the
/// auctions hold of their funds.
pub proof fn reserves_stay_exact(ledger: Ledger, change: Change)
    requires
        ledger.sound(),
        ledger.exact_reserves(),
        ledger.apply(change) is Ok,
        !ledger.pays_again(change),
    ensures
        ledger.apply(change)->Ok_0.exact_reserves(),
{
    let next = ledger.apply(change)->Ok_0;
    assert forall|key: PublicKey| #[trigger]
        next.participants.contains_key(key) implies next.participants[key].reserved == held(
        next.auctions,
        key,
    ) by {
        match change {
            Change::NewParticipant { pub_key, name } => {
                if key == pub_key {
                    assert forall|i: int|
                        0 <= i < ledger.auctions.len() && (
                        #[trigger] ledger.auctions[i]).bidding.len()
                            > 0 implies ledger.auctions[i].bidding.last().bidder_key != key by {
                        assert(ledger.sound_auction(i));
                    }
                    held_of_nobody(ledger.auctions, key);
                } else {
                    assert(ledger.participants.contains_key(key));
                }
            },
            Change::NewItem { owner_key, desc, url } => {
                assert(ledger.participants.contains_key(key));
            },
            Change::NewAuction { auctioner_key, item_id, start_price } => {
                assert(ledger.participants.contains_key(key));
                assert(next.auctions.drop_last() =~= ledger.auctions);
            },
            Change::Bid { bidder_key, auction_id, value } => {
                let id = auction_id as int;
                let before = ledger.auctions[id];
                assert(ledger.sound_auction(id));
                assert(ledger.sound_participant(bidder_key));
                if before.bidding.len() > 0 {
                    let outbid_key = before.bidding[before.bidding.len() - 1].bidder_key;
                    assert(ledger.participants.contains_key(outbid_key));
                    assert(ledger.sound_participant(outbid_key));
                    held_in_one(ledger.auctions, id, outbid_key);
                }
                assert(ledger.participants.contains_key(key));
                held_after_update(ledger.auctions, id, next.auctions[id], key);
            },
            Change::CloseAuction { auction_id } => {
                let id = auction_id as int;
                let before = ledger.auctions[id];
                assert(ledger.sound_auction(id));
                assert(ledger.sound_item(before.item_id as int));
                if before.bidding.len() > 0 {
                    let winner = before.bidding[before.bidding.len() - 1].bidder_key;
                    assert(ledger.participants.contains_key(winner));
                    held_in_one(ledger.auctions, id, winner);
                }
                assert(ledger.participants.contains_key(key));
                held_after_update(ledger.auctions, id, next.auctions[id], key);
            },
        }
    }
}

/// Tells whether an auction may have become another one: it is of the same item, bids
/// were only added, and if it was closed, nothing has changed.
pub open spec fn continues(earlier: AuctionView, later: AuctionView) -> bool {
    &&& later.id == earlier.id
    &&& later.auctioner_key == earlier.auctioner_key
    &&& later.item_id == earlier.item_id
    &&& later.start_price == earlier.start_price
    &&& earlier.bidding.is_prefix_of(later.bidding)
    &&& earlier.closed ==> later == earlier
}

/// Nothing is forgotten: participants stay registered under their names, items stay
/// as they are, and auctions only gain bids until they are closed, which is for good.
pub proof fn history_is_kept(ledger: Ledger, change: Change)
    requires
        ledger.numbered(),
        ledger.runs(change),
        ledger.apply(change) is Ok,
    ensures
        forall|key: PublicKey| #[trigger]
            ledger.participants.contains_key(key) ==> {
                let next = ledger.apply(change)->Ok_0;
                &&& next.participants.contains_key(key)
                &&& next.participants[key].pub_key == ledger.participants[key].pub_key
                &&& next.participants[key].name == ledger.participants[key].name
            },
        ledger.items.is_prefix_of(ledger.apply(change)->Ok_0.items),
        ledger.auctions.len() <= ledger.apply(change)->Ok_0.auctions.len(),
        forall|i: int|
            0 <= i < ledger.auctions.len() ==> continues(
                #[trigger] ledger.auctions[i],
                ledger.apply(change)->Ok_0.auctions[i],
            ),
{
}

/// The last bid of an auction, which wins, is the highest one.
pub proof fn last_bid_is_highest(ledger: Ledger, i: int, j: int)
    requires
        ledger.sound(),
        0 <= i < ledger.auctions.len(),
        0 <= j < ledger.auctions[i].bidding.len(),
    ensures
        ledger.auctions[i].last_bid() is Some,
        ledger.auctions[i].bidding[j].value <= ledger.auctions[i].last_bid()->0.value,
        j < ledger.auctions[i].bidding.len() - 1 ==> ledger.auctions[i].bidding[j].value
            < ledger.auctions[i].last_bid()->0.value,
{
    assert(ledger.sound_auction(i));
}

/// A closed auction accepts no bids.
pub proof fn closed_auctions_accept_no_bids(
    ledger: Ledger,
    bidder_key: PublicKey,
    auction_id: nat,
    value: u64,
)
    requires
        auction_id < ledger.auctions.len(),
        ledger.auctions[auction_id as int].closed,
    ensures
        ledger.bid(bidder_key, auction_id, value) == Err::<Ledger, Error>(
            if ledger.participants.contains_key(bidder_key) {
                Error::AuctionClosed
            } else {
                Error::ParticipantIsNotRegistered
            },
        ),
{
}

/// Closing an auction closes it.
pub proof fn closing_closes(ledger: Ledger, auction_id: nat)
    requires
        auction_id < ledger.auctions.len(),
        ledger.auctions[auction_id as int].id == auction_id,
    ensures
        ledger.close_auction(auction_id) is Ok,
        ledger.close_auction(auction_id)->Ok_0.auctions == ledger.auctions.update(
            auction_id as int,
            ledger.auctions[auction_id as int].close(),
        ),
{
}

/// A key is registered once: whoever comes with it again, under whatever name, is
/// refused.
pub proof fn keys_are_registered_once(
    ledger: Ledger,
    pub_key: PublicKey,
    name: Seq<char>,
    other_name: Seq<char>,
)
    requires
        ledger.new_participant(pub_key, name) is Ok,
    ensures
        ledger.new_participant(pub_key, name)->Ok_0.new_participant(pub_key, other_name) == Err::<
            Ledger,
            Error,
        >(Error::ParticipantAlreadyRegistered),
{
}

/// A bid moves no money. It gives whoever was outbid their reserve back, reserves its
/// value of the bidder's funds, and leaves all others as they were. Bidders who outbid
/// themselves have the new bid in reserve in place of the old one.
pub proof fn bid_moves_reserves(
    ledger: Ledger,
    bidder_key: PublicKey,
    auction_id: nat,
    value: u64,
    key: PublicKey,
)
    requires
        ledger.bid_runs(bidder_key, auction_id, value as nat),
        ledger.bid(bidder_key, auction_id, value) is Ok,
        ledger.auctions[auction_id as int].id == auction_id,
        ledger.participants.contains_key(key),
    ensures
        ({
            let next = ledger.bid(bidder_key, auction_id, value)->Ok_0;
            let last = ledger.auctions[auction_id as int].last_bid();
            let released = if last is Some && last->0.bidder_key == key {
                ledger.participants[key].release(last->0.value as nat)
            } else {
                ledger.participants[key]
            };
            &&& next.participants.dom() == ledger.participants.dom()
            &&& next.auctions[auction_id as int].last_bid() == Some(
                Bid { bidder_key: ledger.participants[bidder_key].pub_key, value },
            )
            &&& next.participants[key] == (if key == bidder_key {
                released.reserve(value as nat)
            } else {
                released
            })
        }),
{
    let next = ledger.bid(bidder_key, auction_id, value)->Ok_0;
    assert(next.participants.dom() =~= ledger.participants.dom());
}

/// Closing an auction moves the winning bid from the winner, who had it in reserve, to
/// the auctioner, and leaves all others as they were. Without a bid nobody pays, and an
/// auctioner who has won their own auction owns what they owned before.
pub proof fn closing_moves_money(ledger: Ledger, auction_id: nat, key: PublicKey)
    requires
        ledger.close_runs(auction_id),
        auction_id < ledger.auctions.len(),
        ledger.participants.contains_key(key),
    ensures
        ({
            let next = ledger.close_auction(auction_id)->Ok_0;
            let auction = ledger.auctions[auction_id as int];
            let last = auction.last_bid();
            let value = last->0.value as nat;
            let wins = last is Some && key == last->0.bidder_key;
            let sells = last is Some && key == auction.auctioner_key;
            &&& next.participants.dom() == ledger.participants.dom()
            &&& next.participants[key] == (if wins && sells {
                ledger.participants[key].release(value)
            } else if wins {
                ledger.participants[key].release(value).decrease(value)
            } else if sells {
                ledger.participants[key].increase(value)
            } else {
                ledger.participants[key]
            })
        }),
{
    let next = ledger.close_auction(auction_id)->Ok_0;
    assert(next.participants.dom() =~= ledger.participants.dom());
}

/// Ledger that a new service reaches after it has executed some transactions. Those
/// that are refused leave it as it is.
pub open spec fn reached(changes: Seq<Change>) -> Ledger
    decreases changes.len(),
{
    if changes.len() == 0 {
        Ledger::initial()
    } else {
        let before = reached(changes.drop_last());
        match before.apply(changes.last()) {
            Ok(next) => next,
            Err(_) => before,
        }
    }
}

/// Tells whether no transaction in a sequence makes a winner pay again out of a reserve
/// that is spoken for.
pub open spec fn never_overdraws(changes: Seq<Change>) -> bool
    decreases changes.len(),
{
    changes.len() == 0 || {
        &&& never_overdraws(changes.drop_last())
        &&& !reached(changes.drop_last()).overdraws(changes.last())
    }
}

/// Whatever a new service executes, its ledger is sound, unless a transaction makes a
/// winner pay again out of a reserve that is spoken for.
pub proof fn reached_ledgers_are_sound(changes: Seq<Change>)
    requires
        never_overdraws(changes),
    ensures
        reached(changes).sound(),
    decreases changes.len(),
{
    if changes.len() > 0 {
        let before = reached(changes.drop_last());
        reached_ledgers_are_sound(changes.drop_last());
        if before.apply(changes.last()) is Ok {
            soundness_is_kept(before, changes.last());
        }
    }
}

/// Tells whether no transaction in a sequence makes a winner pay again.
pub open spec fn never_pays_again(changes: Seq<Change>) -> bool
    decreases changes.len(),
{
    changes.len() == 0 || {
        &&& never_pays_again(changes.drop_last())
        &&& !reached(changes.drop_last()).pays_again(changes.last())
    }
}

/// Whatever a new service executes, participants have in reserve exactly what the auctions
/// hold of their funds, unless an auction is paid twice.
pub proof fn reached_reserves_are_exact(changes: Seq<Change>)
    requires
        never_pays_again(changes),
    ensures
        reached(changes).sound(),
        reached(changes).exact_reserves(),
    decreases changes.len(),
{
    if changes.len() > 0 {
        let before = reached(changes.drop_last());
        reached_reserves_are_exact(changes.drop_last());
        if before.apply(changes.last()) is Ok {
            soundness_is_kept(before, changes.last());
            reserves_stay_exact(before, changes.last());
        }
    }
}

} // verus!
