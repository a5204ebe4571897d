//! Tables of the auction service.

use vstd::prelude::*;

use super::data::{Auction, Item, Participant};
use super::ledger::Ledger;
use crate::crypto::PublicKey;
use crate::storage::{table_is_finite, ListIndex, MapIndex};

verus! {

/// Name under which the participants are stored.
pub const PARTICIPANTS_TABLE: &'static str = "platform.participants";

/// Name under which the items are stored.
pub const ITEMS_TABLE: &'static str = "platform.items";

/// Name under which the auctions are stored.
pub const AUCTIONS_TABLE: &'static str = "platform.auctions";

/// What a record that may be missing stands for.
pub open spec fn record<T: View>(value: Option<T>) -> Option<T::V> {
    match value {
        Some(v) => Some(v@),
        None => None,
    }
}

/// Tables of the auction service.
pub struct AuctionSchema {
    participants: MapIndex<Participant>,
    items: ListIndex<Item>,
    auctions: ListIndex<Auction>,
}

impl View for AuctionSchema {
    type V = Ledger;

    closed spec fn view(&self) -> Ledger {
        Ledger {
            participants: self.participants@,
            items: self.items@,
            auctions: self.auctions@,
        }
    }
}

impl AuctionSchema {
    /// Makes a schema of its tables.
    pub fn new(
        participants: MapIndex<Participant>,
        items: ListIndex<Item>,
        auctions: ListIndex<Auction>,
    ) -> (schema: Self)
        ensures
            schema@ == (Ledger {
                participants: participants@,
                items: items@,
                auctions: auctions@,
            }),
    {
        AuctionSchema { participants, items, auctions }
    }

    /// Makes a schema with nothing in its tables.
    pub fn empty() -> (schema: Self)
        ensures
            schema@ == Ledger::initial(),
    {
        Self::new(MapIndex::new(), ListIndex::new(), ListIndex::new())
    }

    /// Returns an immutable version of the participants table.
    pub fn participants(&self) -> (index: &MapIndex<Participant>)
        ensures
            index@ == self@.participants,
    {
        &self.participants
    }

    /// Gets a specific participant from the storage.
    pub fn participant(&self, pub_key: &PublicKey) -> (participant: Option<Participant>)
        ensures
            record(participant) == self@.participant(*pub_key),
    {
        match self.participants.get(pub_key) {
            Some(participant) => Some(participant.clone()),
            None => None,
        }
    }

    /// Returns an immutable version of the items table.
    pub fn items(&self) -> (index: &ListIndex<Item>)
        ensures
            index@ == self@.items,
    {
        &self.items
    }

    /// Gets a specific item from the storage.
    pub fn item(&self, id: u64) -> (item: Option<Item>)
        ensures
            record(item) == self@.item(id as nat),
    {
        match self.items.get(id) {
            Some(item) => Some(item.clone()),
            None => None,
        }
    }

    /// Returns an immutable version of the auctions table.
    pub fn auctions(&self) -> (index: &ListIndex<Auction>)
        ensures
            index@ == self@.auctions,
    {
        &self.auctions
    }

    /// Gets a specific auction from the storage.
    pub fn auction(&self, id: u64) -> (auction: Option<Auction>)
        ensures
            record(auction) == self@.auction(id as nat),
    {
        match self.auctions.get(id) {
            Some(auction) => Some(auction.clone()),
            None => None,
        }
    }

    /// Returns a mutable version of the participants table.
    pub fn participants_mut(&mut self) -> (index: &mut MapIndex<Participant>)
        ensures
            (*index)@ == old(self)@.participants,
            final(self)@ == (Ledger { participants: (*final(index))@, ..old(self)@ }),
    {
        &mut self.participants
    }

    /// Returns a mutable version of the items table.
    pub fn items_mut(&mut self) -> (index: &mut ListIndex<Item>)
        ensures
            (*index)@ == old(self)@.items,
            final(self)@ == (Ledger { items: (*final(index))@, ..old(self)@ }),
    {
        &mut self.items
    }

    /// Returns a mutable version of the auctions table.
    pub fn auctions_mut(&mut self) -> (index: &mut ListIndex<Auction>)
        ensures
            (*index)@ == old(self)@.auctions,
            final(self)@ == (Ledger { auctions: (*final(index))@, ..old(self)@ }),
    {
        &mut self.auctions
    }
}

/// A schema has finitely many participants.
pub proof fn participants_are_finite(schema: AuctionSchema)
    ensures
        schema@.participants.dom().finite(),
{
    table_is_finite(schema.participants.rows());
}

} // verus!
