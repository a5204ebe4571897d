//! Records of the auction service.

use vstd::prelude::*;

use crate::crypto::PublicKey;

verus! {

/// Participant of auctions.
#[derive(Debug, PartialEq, Eq)]
pub struct Participant {
    /// Public key of the participant.
    pub pub_key: PublicKey,
    /// Name of the participant.
    pub name: String,
    /// Current balance.
    pub balance: u64,
    /// Reserved money that participates in auctions.
    pub reserved: u64,
}

/// Item that a participant may sell.
#[derive(Debug, PartialEq, Eq)]
pub struct Item {
    /// Number of the item.
    pub id: u64,
    /// Owner of the item: a participant identified by their public key.
    pub owner_key: PublicKey,
    /// Description of the item.
    pub desc: String,
    /// URL of the item image.
    pub url: String,
}

/// Bid in an auction.
#[derive(Clone, Copy, Debug, PartialEq, Eq)]
pub struct Bid {
    /// Bidder: a participant identified by their public key.
    pub bidder_key: PublicKey,
    /// Value of the bid.
    pub value: u64,
}

/// Auction of an item.
#[derive(Debug, PartialEq, Eq)]
pub struct Auction {
    /// Number of the auction.
    pub id: u64,
    /// Participant selling the item.
    pub auctioner_key: PublicKey,
    /// Item that is auctioned.
    pub item_id: u64,
    /// Price that the first bid has to exceed.
    pub start_price: u64,
    /// History of bids. Last bid wins.
    pub bidding: Vec<Bid>,
    /// If closed, no bids are accepted.
    pub closed: bool,
}

/// What a [`Participant`] stands for.
#[verifier::ext_equal]
pub struct ParticipantView {
    pub pub_key: PublicKey,
    pub name: Seq<char>,
    pub balance: nat,
    pub reserved: nat,
}

/// What an [`Item`] stands for.
#[verifier::ext_equal]
pub struct ItemView {
    pub id: nat,
    pub owner_key: PublicKey,
    pub desc: Seq<char>,
    pub url: Seq<char>,
}

/// What an [`Auction`] stands for.
#[verifier::ext_equal]
pub struct AuctionView {
    pub id: nat,
    pub auctioner_key: PublicKey,
    pub item_id: nat,
    pub start_price: nat,
    pub bidding: Seq<Bid>,
    pub closed: bool,
}

impl View for Participant {
    type V = ParticipantView;

    open spec fn view(&self) -> ParticipantView {
        ParticipantView {
            pub_key: self.pub_key,
            name: self.name@,
            balance: self.balance as nat,
            reserved: self.reserved as nat,
        }
    }
}

impl View for Item {
    type V = ItemView;

    open spec fn view(&self) -> ItemView {
        ItemView {
            id: self.id as nat,
            owner_key: self.owner_key,
            desc: self.desc@,
            url: self.url@,
        }
    }
}

impl View for Auction {
    type V = AuctionView;

    open spec fn view(&self) -> AuctionView {
        AuctionView {
            id: self.id as nat,
            auctioner_key: self.auctioner_key,
            item_id: self.item_id as nat,
            start_price: self.start_price as nat,
            bidding: self.bidding@,
            closed: self.closed,
        }
    }
}

impl ParticipantView {
    /// The participant with more in reserve.
    pub open spec fn reserve(self, amount: nat) -> ParticipantView {
        ParticipantView { reserved: self.reserved + amount, ..self }
    }

    /// The participant with less in reserve.
    pub open spec fn release(self, amount: nat) -> ParticipantView {
        ParticipantView { reserved: (self.reserved - amount) as nat, ..self }
    }

    /// The participant with a higher balance.
    pub open spec fn increase(self, amount: nat) -> ParticipantView {
        ParticipantView { balance: self.balance + amount, ..self }
    }

    /// The participant with a lower balance.
    pub open spec fn decrease(self, amount: nat) -> ParticipantView {
        ParticipantView { balance: (self.balance - amount) as nat, ..self }
    }
}

impl AuctionView {
    /// The last bid, which is the winning one.
    pub open spec fn last_bid(self) -> Option<Bid> {
        if self.bidding.len() == 0 {
            None
        } else {
            Some(self.bidding.last())
        }
    }

    /// What a new bid has to exceed.
    pub open spec fn price(self) -> nat {
        match self.last_bid() {
            Some(bid) => bid.value as nat,
            None => self.start_price,
        }
    }

    /// The auction with one bid more.
    pub open spec fn bid(self, bid: Bid) -> AuctionView {
        AuctionView { bidding: self.bidding.push(bid), ..self }
    }

    /// The auction after it is closed.
    pub open spec fn close(self) -> AuctionView {
        AuctionView { closed: true, ..self }
    }
}

impl Clone for Participant {
    fn clone(&self) -> (copy: Self)
        ensures
            copy@ == self@,
    {
        Participant {
            pub_key: self.pub_key,
            name: self.name.clone(),
            balance: self.balance,
            reserved: self.reserved,
        }
    }
}

impl Clone for Item {
    fn clone(&self) -> (copy: Self)
        ensures
            copy@ == self@,
    {
        Item {
            id: self.id,
            owner_key: self.owner_key,
            desc: self.desc.clone(),
            url: self.url.clone(),
        }
    }
}

impl Clone for Auction {
    fn clone(&self) -> (copy: Self)
        ensures
            copy@ == self@,
    {
        let copy = Auction {
            id: self.id,
            auctioner_key: self.auctioner_key,
            item_id: self.item_id,
            start_price: self.start_price,
            bidding: self.bidding(),
            closed: self.closed,
        };
        copy
    }
}

impl Participant {
    /// Makes a participant.
    pub fn new(pub_key: &PublicKey, name: &str, balance: u64, reserved: u64) -> (participant: Self)
        ensures
            participant@ == (ParticipantView {
                pub_key: *pub_key,
                name: name@,
                balance: balance as nat,
                reserved: reserved as nat,
            }),
    {
        Participant { pub_key: *pub_key, name: name.to_owned(), balance, reserved }
    }

    /// Public key of the participant.
    pub fn pub_key(&self) -> (key: &PublicKey)
        ensures
            *key == self@.pub_key,
    {
        &self.pub_key
    }

    /// Name of the participant.
    pub fn name(&self) -> (name: &str)
        ensures
            name@ == self@.name,
    {
        self.name.as_str()
    }

    /// Current balance.
    pub fn balance(&self) -> (balance: u64)
        ensures
            balance == self@.balance,
    {
        self.balance
    }

    /// Reserved money.
    pub fn reserved(&self) -> (reserved: u64)
        ensures
            reserved == self@.reserved,
    {
        self.reserved
    }

    /// Returns a copy of this participant with the reserve increased by the specified amount.
    pub fn reserve(self, amount: u64) -> (participant: Self)
        requires
            self@.reserved + amount <= u64::MAX,
        ensures
            participant@ == self@.reserve(amount as nat),
    {
        let reserved: u64 = self.reserved() + amount;
        Self::new(self.pub_key(), self.name(), self.balance(), reserved)
    }

    /// Returns a copy of this participant with the reserve decreased by the specified amount.
    pub fn release(self, amount: u64) -> (participant: Self)
        requires
            amount <= self@.reserved,
        ensures
            participant@ == self@.release(amount as nat),
    {
        let reserved: u64 = self.reserved() - amount;
        Self::new(self.pub_key(), self.name(), self.balance(), reserved)
    }

    /// Returns a copy of this participant with the balance increased by the specified amount.
    pub fn increase(self, amount: u64) -> (participant: Self)
        requires
            self@.balance + amount <= u64::MAX,
        ensures
            participant@ == self@.increase(amount as nat),
    {
        let balance: u64 = self.balance() + amount;
        Self::new(self.pub_key(), self.name(), balance, self.reserved())
    }

    /// Returns a copy of this participant with the balance decreased by the specified amount.
    pub fn decrease(self, amount: u64) -> (participant: Self)
        requires
            amount <= self@.balance,
        ensures
            participant@ == self@.decrease(amount as nat),
    {
        let balance: u64 = self.balance() - amount;
        Self::new(self.pub_key(), self.name(), balance, self.reserved())
    }
}

impl Item {
    /// Makes an item.
    pub fn new(id: u64, owner_key: &PublicKey, desc: &str, url: &str) -> (item: Self)
        ensures
            item@ == (ItemView { id: id as nat, owner_key: *owner_key, desc: desc@, url: url@ }),
    {
        Item { id, owner_key: *owner_key, desc: desc.to_owned(), url: url.to_owned() }
    }

    /// Number of the item.
    pub fn id(&self) -> (id: u64)
        ensures
            id == self@.id,
    {
        self.id
    }

    /// Owner of the item.
    pub fn owner_key(&self) -> (key: &PublicKey)
        ensures
            *key == self@.owner_key,
    {
        &self.owner_key
    }

    /// Description of the item.
    pub fn desc(&self) -> (desc: &str)
        ensures
            desc@ == self@.desc,
    {
        self.desc.as_str()
    }

    /// URL of the item image.
    pub fn url(&self) -> (url: &str)
        ensures
            url@ == self@.url,
    {
        self.url.as_str()
    }
}

impl Bid {
    /// Makes a bid.
    pub fn new(bidder_key: &PublicKey, value: u64) -> (bid: Self)
        ensures
            bid == (Bid { bidder_key: *bidder_key, value }),
    {
        Bid { bidder_key: *bidder_key, value }
    }

    /// Bidder.
    pub fn bidder_key(&self) -> (key: &PublicKey)
        ensures
            *key == self.bidder_key,
    {
        &self.bidder_key
    }

    /// Value of the bid.
    pub fn value(&self) -> (value: u64)
        ensures
            value == self.value,
    {
        self.value
    }
}

impl Auction {
    /// Makes an auction.
    pub fn new(
        id: u64,
        auctioner_key: &PublicKey,
        item_id: u64,
        start_price: u64,
        bidding: Vec<Bid>,
        closed: bool,
    ) -> (auction: Self)
        ensures
            auction@ == (AuctionView {
                id: id as nat,
                auctioner_key: *auctioner_key,
                item_id: item_id as nat,
                start_price: start_price as nat,
                bidding: bidding@,
                closed,
            }),
    {
        Auction { id, auctioner_key: *auctioner_key, item_id, start_price, bidding, closed }
    }

    /// Number of the auction.
    pub fn id(&self) -> (id: u64)
        ensures
            id == self@.id,
    {
        self.id
    }

    /// Participant selling the item.
    pub fn auctioner_key(&self) -> (key: &PublicKey)
        ensures
            *key == self@.auctioner_key,
    {
        &self.auctioner_key
    }

    /// Item that is auctioned.
    pub fn item_id(&self) -> (id: u64)
        ensures
            id == self@.item_id,
    {
        self.item_id
    }

    /// Price that the first bid has to exceed.
    pub fn start_price(&self) -> (price: u64)
        ensures
            price == self@.start_price,
    {
        self.start_price
    }

    /// Copy of the history of bids.
    pub fn bidding(&self) -> (bidding: Vec<Bid>)
        ensures
            bidding@ == self@.bidding,
    {
        let bidding = self.bidding.clone();
        assert(bidding@ =~= self.bidding@);
        bidding
    }

    /// Whether the auction is closed.
    pub fn closed(&self) -> (closed: bool)
        ensures
            closed == self@.closed,
    {
        self.closed
    }

    /// The last bid, which is the winning one.
    pub fn last_bid(&self) -> (bid: Option<Bid>)
        ensures
            bid == self@.last_bid(),
    {
        if self.bidding.len() == 0 {
            None
        } else {
            Some(self.bidding[self.bidding.len() - 1])
        }
    }

    /// Returns a copy of this auction with a new bid.
    pub fn bid(self, bid: Bid) -> (auction: Self)
        ensures
            auction@ == self@.bid(bid),
    {
        let mut bidding = self.bidding();
        bidding.push(bid);
        Self::new(
            self.id(),
            self.auctioner_key(),
            self.item_id(),
            self.start_price(),
            bidding,
            self.closed(),
        )
    }

    /// Returns a copy of this auction that is closed.
    pub fn close(self) -> (auction: Self)
        ensures
            auction@ == self@.close(),
    {
        Self::new(
            self.id(),
            self.auctioner_key(),
            self.item_id(),
            self.start_price(),
            self.bidding(),
            true,
        )
    }
}

/// Reserving an amount and releasing it again leaves the participant as they were.
pub proof fn release_undoes_reserve(participant: ParticipantView, amount: nat)
    ensures
        participant.reserve(amount).release(amount) == participant,
{
}

/// Increasing a balance and decreasing it again by the same amount leaves the
/// participant as they were.
pub proof fn decrease_undoes_increase(participant: ParticipantView, amount: nat)
    ensures
        participant.increase(amount).decrease(amount) == participant,
{
}

/// A record stands for what is in its fields.
pub proof fn views_show_all_fields(participant: Participant, item: Item, auction: Auction)
    ensures
        participant@.pub_key == participant.pub_key,
        participant@.name == participant.name@,
        participant@.balance == participant.balance,
        participant@.reserved == participant.reserved,
        item@.id == item.id,
        item@.owner_key == item.owner_key,
        item@.desc == item.desc@,
        item@.url == item.url@,
        auction@.id == auction.id,
        auction@.auctioner_key == auction.auctioner_key,
        auction@.item_id == auction.item_id,
        auction@.start_price == auction.start_price,
        auction@.bidding == auction.bidding@,
        auction@.closed == auction.closed,
{
}

/// Reserving and releasing move the reserve by the amount, increasing and decreasing the
/// balance, and nothing else of the participant changes.
pub proof fn amounts_are_added_and_taken(participant: ParticipantView, amount: nat)
    ensures
        participant.reserve(amount).reserved == participant.reserved + amount,
        participant.reserve(amount).balance == participant.balance,
        participant.reserve(amount).pub_key == participant.pub_key,
        participant.reserve(amount).name == participant.name,
        amount <= participant.reserved ==> participant.release(amount).reserved
            == participant.reserved - amount,
        participant.release(amount).balance == participant.balance,
        participant.release(amount).pub_key == participant.pub_key,
        participant.release(amount).name == participant.name,
        participant.increase(amount).balance == participant.balance + amount,
        participant.increase(amount).reserved == participant.reserved,
        participant.increase(amount).pub_key == participant.pub_key,
        participant.increase(amount).name == participant.name,
        amount <= participant.balance ==> participant.decrease(amount).balance
            == participant.balance - amount,
        participant.decrease(amount).reserved == participant.reserved,
        participant.decrease(amount).pub_key == participant.pub_key,
        participant.decrease(amount).name == participant.name,
{
}

/// A bid comes behind all others and is then the last one and the price to exceed. An auction
/// without bids has its starting price as the price to exceed.
pub proof fn bids_come_last(auction: AuctionView, bid: Bid, i: int)
    ensures
        auction.bidding.len() == 0 ==> auction.last_bid() is None && auction.price()
            == auction.start_price,
        auction.bidding.len() > 0 ==> {
            let last = auction.bidding[auction.bidding.len() - 1];
            auction.last_bid() == Some(last) && auction.price() == last.value
        },
        auction.bid(bid).last_bid() == Some(bid),
        auction.bid(bid).price() == bid.value,
        auction.bid(bid).bidding.len() == auction.bidding.len() + 1,
        auction.bid(bid).bidding[auction.bidding.len() as int] == bid,
        0 <= i < auction.bidding.len() ==> auction.bid(bid).bidding[i] == auction.bidding[i],
        auction.bid(bid).id == auction.id,
        auction.bid(bid).auctioner_key == auction.auctioner_key,
        auction.bid(bid).item_id == auction.item_id,
        auction.bid(bid).start_price == auction.start_price,
        auction.bid(bid).closed == auction.closed,
{
}

/// A closed auction has its flag set, with bids or without and whatever the price, and is
/// otherwise as it was.
pub proof fn closed_auctions_say_so(auction: AuctionView)
    ensures
        auction.close().closed,
        auction.close().id == auction.id,
        auction.close().auctioner_key == auction.auctioner_key,
        auction.close().item_id == auction.item_id,
        auction.close().start_price == auction.start_price,
        auction.close().bidding == auction.bidding,
{
}

} // verus!
