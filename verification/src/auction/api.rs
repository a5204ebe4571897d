//! What the auction service answers to requests.

use vstd::prelude::*;

use super::data::{Auction, Item, Participant, ParticipantView};
use super::schema::{record, AuctionSchema};
use crate::crypto::{hex_key, PublicKey};
use crate::routing::{Method, Route, RouteView};
use crate::storage::{ascending, in_key_order, row_views, table};

verus! {

/// Answer to a request for a record.
#[derive(Debug, PartialEq, Eq)]
pub enum Reply<T> {
    /// The record was found.
    Found(T),
    /// There is no such record. The message says so.
    NotFound(&'static str),
    /// The request was not understood. The body of the answer says why.
    BadRequest(&'static str),
}

/// The answer when a transaction was accepted.
#[derive(Clone, Copy, Debug)]
pub struct TransactionResponse {
    /// Hash of the transaction.
    pub tx_hash: crate::crypto::Hash,
}

/// What a route of the service leads to.
#[derive(Clone, Copy, Debug, PartialEq, Eq, Structural)]
pub enum Endpoint {
    GetParticipant,
    GetParticipants,
    GetItem,
    GetItems,
    GetAuction,
    GetAuctions,
    PostTransaction,
}

/// Routes of the service.
pub open spec fn route_table() -> Seq<RouteView<Endpoint>> {
    seq![
        RouteView {
            method: Method::Get,
            pattern: "/v1/participant/:pub_key"@,
            endpoint: Endpoint::GetParticipant,
            name: "get_participant"@,
        },
        RouteView {
            method: Method::Get,
            pattern: "/v1/participants"@,
            endpoint: Endpoint::GetParticipants,
            name: "get_participants"@,
        },
        RouteView {
            method: Method::Post,
            pattern: "/v1/participants"@,
            endpoint: Endpoint::PostTransaction,
            name: "post_new_participant"@,
        },
        RouteView {
            method: Method::Get,
            pattern: "/v1/item/:id"@,
            endpoint: Endpoint::GetItem,
            name: "get_item"@,
        },
        RouteView {
            method: Method::Get,
            pattern: "/v1/items"@,
            endpoint: Endpoint::GetItems,
            name: "get_items"@,
        },
        RouteView {
            method: Method::Post,
            pattern: "/v1/items"@,
            endpoint: Endpoint::PostTransaction,
            name: "post_new_item"@,
        },
        RouteView {
            method: Method::Get,
            pattern: "/v1/auction/:id"@,
            endpoint: Endpoint::GetAuction,
            name: "get_auction"@,
        },
        RouteView {
            method: Method::Get,
            pattern: "/v1/auctions"@,
            endpoint: Endpoint::GetAuctions,
            name: "get_auctions"@,
        },
        RouteView {
            method: Method::Post,
            pattern: "/v1/auctions"@,
            endpoint: Endpoint::PostTransaction,
            name: "post_new_auction"@,
        },
        RouteView {
            method: Method::Post,
            pattern: "/v1/bid"@,
            endpoint: Endpoint::PostTransaction,
            name: "post_new_bid"@,
        },
        RouteView {
            method: Method::Post,
            pattern: "/v1/auction/close"@,
            endpoint: Endpoint::PostTransaction,
            name: "post_close_auction"@,
        },
    ]
}

/// Tells whether a character is a decimal digit.
pub open spec fn is_digit(c: char) -> bool {
    '0' <= c <= '9'
}

/// Number that a sequence of decimal digits stands for.
pub open spec fn digits_value(digits: Seq<char>) -> nat
    decreases digits.len(),
{
    if digits.len() == 0 {
        0
    } else {
        10 * digits_value(digits.drop_last()) + (digits.last() as nat - '0' as nat) as nat
    }
}

/// Text without the plus sign that it may start with.
pub open spec fn unsigned(text: Seq<char>) -> Seq<char> {
    if text.len() > 0 && text[0] == '+' {
        text.drop_first()
    } else {
        text
    }
}

/// Tells whether a text has digits only.
pub open spec fn all_digits(text: Seq<char>) -> bool {
    forall|i: int| 0 <= i < text.len() ==> is_digit(#[trigger] text[i])
}

/// Number that a text stands for: decimal digits, at least one, with or without a plus
/// sign before them. `None` if it is no such text or the number is too large.
pub open spec fn decimal(text: Seq<char>) -> Option<u64> {
    let digits = unsigned(text);
    if digits.len() > 0 && all_digits(digits) && digits_value(digits) <= u64::MAX {
        Some(digits_value(digits) as u64)
    } else {
        None
    }
}

/// Reads a number by means of `str::parse::<u64>` of the standard library, which is
/// taken to accept an optional plus sign followed by one or more decimal digits, as
/// long as the number fits, and nothing else.
#[verifier::external_body]
fn parse_number(text: &str) -> (number: Option<u64>)
    ensures
        number == decimal(text@),
{
    text.parse::<u64>().ok()
}

/// Tells whether a reply is the one for a record that may be missing.
pub open spec fn replies_with<T: View>(
    reply: Reply<T>,
    value: Option<T::V>,
    missing: Seq<char>,
) -> bool {
    match value {
        Some(v) => reply matches Reply::Found(found) && found@ == v,
        None => reply matches Reply::NotFound(message) && message@ == missing,
    }
}

/// Makes the reply for a record that may be missing.
pub fn reply<T: View>(value: Option<T>, missing: &'static str) -> (reply: Reply<T>)
    ensures
        replies_with(reply, record(value), missing@),
{
    match value {
        Some(found) => Reply::Found(found),
        None => Reply::NotFound(missing),
    }
}

/// Endpoints of the auction service.
pub struct AuctionApi;

impl AuctionApi {
    /// Key in a request for a participant: the last segment of its path. Otherwise the
    /// body of the answer to a bad request.
    pub fn participant_key(path: &Vec<&str>) -> (key: Result<PublicKey, &'static str>)
        requires
            path@.len() > 0,
        ensures
            match hex_key(path@.last()@) {
                Some(k) => key == Ok::<PublicKey, &'static str>(k),
                None => key is Err && key->Err_0@ == "\"Invalid request param: `pub_key`\""@,
            },
    {
        match PublicKey::from_hex(path[path.len() - 1]) {
            Some(key) => Ok(key),
            None => Err("\"Invalid request param: `pub_key`\""),
        }
    }

    /// Number in a request for an item: the last segment of its path. Otherwise the
    /// body of the answer to a bad request.
    pub fn item_number(path: &Vec<&str>) -> (id: Result<u64, &'static str>)
        requires
            path@.len() > 0,
        ensures
            match decimal(path@.last()@) {
                Some(n) => id == Ok::<u64, &'static str>(n),
                None => id is Err && id->Err_0@ == "\"Invalid request param: `item_id`\""@,
            },
    {
        match parse_number(path[path.len() - 1]) {
            Some(number) => Ok(number),
            None => Err("\"Invalid request param: `item_id`\""),
        }
    }

    /// Number in a request for an auction: the last segment of its path. Otherwise the
    /// body of the answer to a bad request, which is that for an item.
    pub fn auction_number(path: &Vec<&str>) -> (id: Result<u64, &'static str>)
        requires
            path@.len() > 0,
        ensures
            match decimal(path@.last()@) {
                Some(n) => id == Ok::<u64, &'static str>(n),
                None => id is Err && id->Err_0@ == "\"Invalid request param: `item_id`\""@,
            },
    {
        Self::item_number(path)
    }

    /// Answer with a participant, once looked up.
    pub fn participant_reply(participant: Option<Participant>) -> (reply: Reply<Participant>)
        ensures
            replies_with(reply, record(participant), "Participant not found"@),
    {
        reply(participant, "Participant not found")
    }

    /// Answer with an item, once looked up.
    pub fn item_reply(item: Option<Item>) -> (reply: Reply<Item>)
        ensures
            replies_with(reply, record(item), "Item not found"@),
    {
        reply(item, "Item not found")
    }

    /// Answer with an auction, once looked up.
    pub fn auction_reply(auction: Option<Auction>) -> (reply: Reply<Auction>)
        ensures
            replies_with(reply, record(auction), "Auction not found"@),
    {
        reply(auction, "Auction not found")
    }

    /// Endpoint for getting a participant.
    pub fn get_participant(schema: &AuctionSchema, path: &Vec<&str>) -> (reply: Reply<
        Participant,
    >)
        requires
            path@.len() > 0,
        ensures
            match hex_key(path@.last()@) {
                Some(key) => replies_with(
                    reply,
                    schema@.participant(key),
                    "Participant not found"@,
                ),
                None => reply matches Reply::BadRequest(body) && body@
                    == "\"Invalid request param: `pub_key`\""@,
            },
    {
        match Self::participant_key(path) {
            Ok(key) => Self::participant_reply(schema.participant(&key)),
            Err(body) => Reply::BadRequest(body),
        }
    }

    /// Endpoint for dumping all participants from the storage, in the order of their
    /// keys.
    pub fn get_participants(schema: &AuctionSchema) -> (participants: Vec<Participant>)
        ensures
            in_key_order(
                schema@.participants,
                participants@.map_values(|participant: Participant| participant@),
            ),
    {
        let rows = schema.participants().iter();
        let ghost views = row_views(rows@);
        let mut participants: Vec<Participant> = Vec::new();
        let mut i: usize = 0;
        while i < rows.len()
            invariant
                i <= rows@.len(),
                participants@.len() == i,
                forall|j: int|
                    0 <= j < i ==> (#[trigger] participants@[j])@ == rows@[j].1@,
            decreases rows@.len() - i,
        {
            participants.push(rows[i].1.clone());
            i += 1;
        }
        assert(ascending(views) && table(views) == schema@.participants);
        assert(participants@.map_values(|participant: Participant| participant@)
            =~= views.map_values(|row: (PublicKey, ParticipantView)| row.1));
        participants
    }

    /// Endpoint for getting an item.
    pub fn get_item(schema: &AuctionSchema, path: &Vec<&str>) -> (reply: Reply<Item>)
        requires
            path@.len() > 0,
        ensures
            match decimal(path@.last()@) {
                Some(id) => replies_with(reply, schema@.item(id as nat), "Item not found"@),
                None => reply matches Reply::BadRequest(body) && body@
                    == "\"Invalid request param: `item_id`\""@,
            },
    {
        match Self::item_number(path) {
            Ok(id) => Self::item_reply(schema.item(id)),
            Err(body) => Reply::BadRequest(body),
        }
    }

    /// Endpoint for dumping all items from the storage.
    pub fn get_items(schema: &AuctionSchema) -> (items: Vec<Item>)
        ensures
            items@.map_values(|item: Item| item@) == schema@.items,
    {
        let rows = schema.items().iter();
        let mut items: Vec<Item> = Vec::new();
        let mut i: usize = 0;
        while i < rows.len()
            invariant
                i <= rows@.len(),
                items@.len() == i,
                forall|j: int| 0 <= j < i ==> (#[trigger] items@[j])@ == rows@[j]@,
            decreases rows@.len() - i,
        {
            items.push(rows[i].clone());
            i += 1;
        }
        assert(items@.map_values(|item: Item| item@) =~= rows@.map_values(|row: Item| row@));
        items
    }

    /// Endpoint for getting an auction.
    pub fn get_auction(schema: &AuctionSchema, path: &Vec<&str>) -> (reply: Reply<Auction>)
        requires
            path@.len() > 0,
        ensures
            match decimal(path@.last()@) {
                Some(id) => replies_with(reply, schema@.auction(id as nat), "Auction not found"@),
                None => reply matches Reply::BadRequest(body) && body@
                    == "\"Invalid request param: `item_id`\""@,
            },
    {
        match Self::auction_number(path) {
            Ok(id) => Self::auction_reply(schema.auction(id)),
            Err(body) => Reply::BadRequest(body),
        }
    }

    /// Endpoint for dumping all auctions from the storage.
    pub fn get_auctions(schema: &AuctionSchema) -> (auctions: Vec<Auction>)
        ensures
            auctions@.map_values(|auction: Auction| auction@) == schema@.auctions,
    {
        let rows = schema.auctions().iter();
        let mut auctions: Vec<Auction> = Vec::new();
        let mut i: usize = 0;
        while i < rows.len()
            invariant
                i <= rows@.len(),
                auctions@.len() == i,
                forall|j: int| 0 <= j < i ==> (#[trigger] auctions@[j])@ == rows@[j]@,
            decreases rows@.len() - i,
        {
            auctions.push(rows[i].clone());
            i += 1;
        }
        assert(auctions@.map_values(|auction: Auction| auction@) =~= rows@.map_values(
            |row: Auction| row@,
        ));
        auctions
    }

    /// Common processing for transaction-accepting endpoints: given the body of the
    /// request as far as it could be read, tells which transaction to submit, or else
    /// why the request is bad.
    pub fn post_transaction<T>(body: Result<Option<T>, String>) -> (submitted: Result<T, String>)
        ensures
            match body {
                Ok(Some(transaction)) => submitted == Ok::<T, String>(transaction),
                Ok(None) => submitted is Err && submitted->Err_0@ == "Empty request body"@,
                Err(message) => submitted == Err::<T, String>(message),
            },
    {
        match body {
            Ok(Some(transaction)) => Ok(transaction),
            Ok(None) => Err("Empty request body".to_owned()),
            Err(message) => Err(message),
        }
    }

    /// Routes that lead to the endpoints.
    pub fn wire() -> (routes: Vec<Route<Endpoint>>)
        ensures
            routes@.map_values(|route: Route<Endpoint>| route@) == route_table(),
    {
        let mut routes: Vec<Route<Endpoint>> = Vec::new();
        routes.push(
            Route {
                method: Method::Get,
                pattern: "/v1/participant/:pub_key",
                endpoint: Endpoint::GetParticipant,
                name: "get_participant",
            },
        );
        routes.push(
            Route {
                method: Method::Get,
                pattern: "/v1/participants",
                endpoint: Endpoint::GetParticipants,
                name: "get_participants",
            },
        );
        routes.push(
            Route {
                method: Method::Post,
                pattern: "/v1/participants",
                endpoint: Endpoint::PostTransaction,
                name: "post_new_participant",
            },
        );
        routes.push(
            Route {
                method: Method::Get,
                pattern: "/v1/item/:id",
                endpoint: Endpoint::GetItem,
                name: "get_item",
            },
        );
        routes.push(
            Route {
                method: Method::Get,
                pattern: "/v1/items",
                endpoint: Endpoint::GetItems,
                name: "get_items",
            },
        );
        routes.push(
            Route {
                method: Method::Post,
                pattern: "/v1/items",
                endpoint: Endpoint::PostTransaction,
                name: "post_new_item",
            },
        );
        routes.push(
            Route {
                method: Method::Get,
                pattern: "/v1/auction/:id",
                endpoint: Endpoint::GetAuction,
                name: "get_auction",
            },
        );
        routes.push(
            Route {
                method: Method::Get,
                pattern: "/v1/auctions",
                endpoint: Endpoint::GetAuctions,
                name: "get_auctions",
            },
        );
        routes.push(
            Route {
                method: Method::Post,
                pattern: "/v1/auctions",
                endpoint: Endpoint::PostTransaction,
                name: "post_new_auction",
            },
        );
        routes.push(
            Route {
                method: Method::Post,
                pattern: "/v1/bid",
                endpoint: Endpoint::PostTransaction,
                name: "post_new_bid",
            },
        );
        routes.push(
            Route {
                method: Method::Post,
                pattern: "/v1/auction/close",
                endpoint: Endpoint::PostTransaction,
                name: "post_close_auction",
            },
        );
        assert(routes@.map_values(|route: Route<Endpoint>| route@) =~= route_table());
        routes
    }
}

impl TransactionResponse {
    /// Makes the answer for a transaction with the given hash.
    pub fn new(tx_hash: crate::crypto::Hash) -> (response: Self)
        ensures
            response.tx_hash == tx_hash,
    {
        TransactionResponse { tx_hash }
    }
}

/// No two routes have the same name.
pub proof fn route_names_are_distinct(i: int, j: int)
    requires
        0 <= i < j < route_table().len(),
    ensures
        route_table()[i].name != route_table()[j].name,
{
    reveal_strlit("get_participant");
    reveal_strlit("get_participants");
    reveal_strlit("post_new_participant");
    reveal_strlit("get_item");
    reveal_strlit("get_items");
    reveal_strlit("post_new_item");
    reveal_strlit("get_auction");
    reveal_strlit("get_auctions");
    reveal_strlit("post_new_auction");
    reveal_strlit("post_new_bid");
    reveal_strlit("post_close_auction");
    let names = |k: int| (route_table()[k].name.len(), route_table()[k].name[0]);
    assert(names(i) != names(j));
}

/// Numbers are read digit by digit: a single digit is its value, a digit behind a number
/// multiplies the number by ten and is added, as long as the sum is no larger than a `u64` can
/// be, and a plus sign may come first. Nothing else is a number.
pub proof fn numbers_are_read_digit_by_digit(text: Seq<char>, c: char)
    ensures
        decimal(Seq::empty()) is None,
        48 <= c as int <= 57 ==> decimal(seq![c]) == Some((c as int - 48) as u64),
        !(48 <= c as int <= 57) ==> decimal(seq![c]) is None,
        text.len() > 0 && decimal(text) is Some ==> {
            let sum = 10 * decimal(text)->0 + (c as int - 48);
            decimal(text.push(c)) == (if 48 <= c as int <= 57 && sum <= 0xffff_ffff_ffff_ffff {
                Some(sum as u64)
            } else {
                None
            })
        },
        text.len() > 0 && text != seq!['+'] && decimal(text) is None ==> decimal(
            text.push(c),
        ) is None,
        text.len() > 0 && text[0] != '+' ==> decimal(seq!['+'] + text) == decimal(text),
        text.len() > 0 && text[0] == '+' ==> decimal(seq!['+'] + text) is None,
{
    single_digits_are_read(c);
    if text.len() > 0 {
        digits_are_appended(text, c);
        signs_are_skipped(text);
    }
}

proof fn single_digits_are_read(c: char)
    ensures
        decimal(Seq::empty()) is None,
        is_digit(c) ==> decimal(seq![c]) == Some((c as int - 48) as u64),
        !is_digit(c) ==> decimal(seq![c]) is None,
{
    let one = seq![c];
    assert(one.len() == 1 && one[0] == c);
    assert(one.drop_first() =~= Seq::empty());
    assert(one.drop_last() =~= Seq::empty());
    assert(digits_value(Seq::empty()) == 0);
    assert(unsigned(Seq::<char>::empty()).len() == 0);
    if !is_digit(c) && c != '+' {
        assert(!is_digit(unsigned(one)[0]));
    }
    if is_digit(c) {
        assert(one.last() == c);
        assert(digits_value(one) == c as int - 48);
    }
}

proof fn digits_are_appended(text: Seq<char>, c: char)
    requires
        text.len() > 0,
    ensures
        decimal(text) is Some ==> {
            let sum = 10 * decimal(text)->0 + (c as int - 48);
            decimal(text.push(c)) == (if is_digit(c) && sum <= u64::MAX {
                Some(sum as u64)
            } else {
                None
            })
        },
        text != seq!['+'] && decimal(text) is None ==> decimal(text.push(c)) is None,
{
    let longer = text.push(c);
    let digits = unsigned(text);
    let more = unsigned(longer);
    assert(longer[0] == text[0]);
    assert(more =~= digits.push(c));
    assert(more.drop_last() =~= digits);
    assert(more.last() == c);
    if decimal(text) is Some {
        assert(digits_value(more) == 10 * digits_value(digits) + (c as nat - '0' as nat) as nat);
        if is_digit(c) {
            assert forall|i: int| 0 <= i < more.len() implies is_digit(#[trigger] more[i]) by {
                if i < digits.len() {
                    assert(is_digit(digits[i]));
                }
            }
        } else {
            assert(!is_digit(more[digits.len() as int]));
        }
    }
    if decimal(longer) is Some {
        assert forall|i: int| 0 <= i < digits.len() implies is_digit(#[trigger] digits[i]) by {
            assert(is_digit(more[i]));
        }
        assert(digits_value(digits) <= digits_value(more));
        if digits.len() == 0 {
            assert(text =~= seq!['+']);
        }
    }
}

proof fn signs_are_skipped(text: Seq<char>)
    requires
        text.len() > 0,
    ensures
        text[0] != '+' ==> decimal(seq!['+'] + text) == decimal(text),
        text[0] == '+' ==> decimal(seq!['+'] + text) is None,
{
    let signed = seq!['+'] + text;
    assert(signed[0] == '+');
    assert(signed.drop_first() =~= text);
    if text[0] == '+' {
        assert(!is_digit(text[0]));
    }
}

/// A reply holds the record where there is one, and the message where there is none.
pub proof fn replies_hold_the_record<T: View>(
    reply: Reply<T>,
    value: Option<T::V>,
    missing: Seq<char>,
)
    ensures
        replies_with(reply, value, missing) <==> {
            ||| value is Some && reply is Found && reply->Found_0@ == value->0
            ||| value is None && reply is NotFound && reply->NotFound_0@ == missing
        },
{
}

} // verus!
