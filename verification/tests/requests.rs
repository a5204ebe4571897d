//! Requests to the services and their answers.

use auction_ledger::auction::api::{AuctionApi, Endpoint, Reply, TransactionResponse};
use auction_ledger::auction::schema::AuctionSchema;
use auction_ledger::auction::transactions::{TxNewAuction, TxNewItem, TxNewParticipant};
use auction_ledger::crypto::PublicKey;
use auction_ledger::routing::Method;
use auction_ledger::storage::MapIndex;
use auction_ledger::time::clock::DateTime;

fn key(n: u8) -> PublicKey {
    PublicKey::new([n; 32])
}

fn stock() -> AuctionSchema {
    let mut schema = AuctionSchema::empty();
    for n in [7u8, 1, 255, 128] {
        let tx = TxNewParticipant { pub_key: key(n), name: format!("{}", n) };
        assert_eq!(tx.execute(&mut schema), Ok(()));
    }
    for n in 0..8 {
        let tx = TxNewItem { owner_key: key(7), desc: format!("{}", n), url: String::new() };
        assert_eq!(tx.execute(&mut schema), Ok(()));
    }
    let tx = TxNewAuction { auctioner_key: key(7), item_id: 3, start_price: 5 };
    assert_eq!(tx.execute(&mut schema), Ok(()));
    schema
}

fn item_named(schema: &AuctionSchema, segment: &str) -> Option<String> {
    match AuctionApi::get_item(schema, &vec!["v1", "item", segment]) {
        Reply::Found(item) => Some(item.desc().to_string()),
        Reply::NotFound(message) => {
            assert_eq!(message, "Item not found");
            None
        }
        Reply::BadRequest(body) => Some(body.to_string()),
    }
}

#[test]
fn keys_are_read_from_hexadecimal() {
    let text = "00ff7F80aBcdef0123456789ABCDEF00112233445566778899aabbccddeeff99";
    let read = PublicKey::from_hex(text).unwrap();
    assert_eq!(read.bytes[..8], [0x00, 0xff, 0x7f, 0x80, 0xab, 0xcd, 0xef, 0x01]);
    assert_eq!(read.bytes[31], 0x99);
    assert!(PublicKey::from_hex(&text[..62]).is_none());
    assert!(PublicKey::from_hex(&format!("{}00", text)).is_none());
    assert!(PublicKey::from_hex("").is_none());
    assert!(PublicKey::from_hex(&text.replace("99", "9g")).is_none());
    assert!(PublicKey::from_hex(&text.replace("99", "9 ")).is_none());
    assert!(PublicKey::from_hex(&text.replace("99", "9\u{e9}")).is_none());
}

#[test]
fn keys_are_ordered_byte_by_byte() {
    let mut bytes = [1u8; 32];
    bytes[31] = 0;
    let smaller = PublicKey::new(bytes);
    assert!(smaller.precedes(&key(1)));
    assert!(!key(1).precedes(&smaller));
    assert!(!key(1).precedes(&key(1)));
    let mut bytes = [0u8; 32];
    bytes[0] = 2;
    assert!(key(1).precedes(&PublicKey::new(bytes)));
    assert!(key(127).precedes(&key(128)));
}

#[test]
fn a_participant_is_found_by_key() {
    let schema = stock();
    let path = "80".repeat(32);
    match AuctionApi::get_participant(&schema, &vec!["v1", "participant", &path]) {
        Reply::Found(participant) => assert_eq!(participant.name(), "128"),
        other => panic!("{:?}", other),
    }
    let path = "81".repeat(32);
    assert_eq!(
        AuctionApi::get_participant(&schema, &vec![&path]),
        Reply::NotFound("Participant not found")
    );
    assert_eq!(
        AuctionApi::get_participant(&schema, &vec!["v1", "participant", "80"]),
        Reply::BadRequest("\"Invalid request param: `pub_key`\"")
    );
}

#[test]
fn participants_are_listed_in_the_order_of_keys() {
    let schema = stock();
    let names: Vec<String> =
        AuctionApi::get_participants(&schema).iter().map(|p| p.name().to_string()).collect();
    assert_eq!(names, vec!["1", "7", "128", "255"]);
    assert!(AuctionApi::get_participants(&AuctionSchema::empty()).is_empty());
}

#[test]
fn an_item_is_found_by_number() {
    let schema = stock();
    assert_eq!(item_named(&schema, "7").as_deref(), Some("7"));
    assert_eq!(item_named(&schema, "+7").as_deref(), Some("7"));
    assert_eq!(item_named(&schema, "007").as_deref(), Some("7"));
    assert_eq!(item_named(&schema, "0").as_deref(), Some("0"));
    assert_eq!(item_named(&schema, "8"), None);
    assert_eq!(item_named(&schema, "18446744073709551615"), None);
    let bad = Some("\"Invalid request param: `item_id`\"".to_string());
    for segment in ["", "+", "-1", "++7", "7 ", " 7", "7a", "0x7", "1_0", "18446744073709551616",
                    "\u{0667}", "1.0"] {
        assert_eq!(item_named(&schema, segment), bad, "{:?}", segment);
    }
}

#[test]
fn items_and_auctions_are_listed_in_turn() {
    let schema = stock();
    let items = AuctionApi::get_items(&schema);
    assert_eq!(items.len(), 8);
    assert!(items.iter().enumerate().all(|(i, item)| item.id() == i as u64));
    let auctions = AuctionApi::get_auctions(&schema);
    assert_eq!(auctions.len(), 1);
    assert_eq!(auctions[0].item_id(), 3);
}

#[test]
fn an_auction_is_found_by_number() {
    let schema = stock();
    match AuctionApi::get_auction(&schema, &vec!["v1", "auction", "0"]) {
        Reply::Found(auction) => assert_eq!(auction.start_price(), 5),
        other => panic!("{:?}", other),
    }
    assert_eq!(
        AuctionApi::get_auction(&schema, &vec!["1"]),
        Reply::NotFound("Auction not found")
    );
    assert_eq!(
        AuctionApi::get_auction(&schema, &vec!["close"]),
        Reply::BadRequest("\"Invalid request param: `item_id`\"")
    );
}

#[test]
fn a_body_is_submitted_or_refused() {
    assert_eq!(AuctionApi::post_transaction(Ok(Some(5u8))), Ok(5));
    assert_eq!(
        AuctionApi::post_transaction::<u8>(Ok(None)),
        Err("Empty request body".to_string())
    );
    assert_eq!(
        AuctionApi::post_transaction::<u8>(Err("no JSON".to_string())),
        Err("no JSON".to_string())
    );
}

#[test]
fn an_accepted_transaction_is_answered_with_its_hash() {
    let response = TransactionResponse::new(auction_ledger::crypto::Hash::new([9; 32]));
    assert_eq!(response.tx_hash.bytes, [9; 32]);
}

#[test]
fn routes_of_the_auction_service() {
    let routes = AuctionApi::wire();
    let listed: Vec<(Method, &str, Endpoint, &str)> =
        routes.iter().map(|r| (r.method, r.pattern, r.endpoint, r.name)).collect();
    let expected = vec![
        (Method::Get, "/v1/participant/:pub_key", Endpoint::GetParticipant, "get_participant"),
        (Method::Get, "/v1/participants", Endpoint::GetParticipants, "get_participants"),
        (Method::Post, "/v1/participants", Endpoint::PostTransaction, "post_new_participant"),
        (Method::Get, "/v1/item/:id", Endpoint::GetItem, "get_item"),
        (Method::Get, "/v1/items", Endpoint::GetItems, "get_items"),
        (Method::Post, "/v1/items", Endpoint::PostTransaction, "post_new_item"),
        (Method::Get, "/v1/auction/:id", Endpoint::GetAuction, "get_auction"),
        (Method::Get, "/v1/auctions", Endpoint::GetAuctions, "get_auctions"),
        (Method::Post, "/v1/auctions", Endpoint::PostTransaction, "post_new_auction"),
        (Method::Post, "/v1/bid", Endpoint::PostTransaction, "post_new_bid"),
        (Method::Post, "/v1/auction/close", Endpoint::PostTransaction, "post_close_auction"),
    ];
    assert_eq!(listed, expected);
}

#[test]
fn a_table_replaces_and_orders() {
    let at = |secs: i64| DateTime::from_timestamp(secs, 0).unwrap();
    let mut table: MapIndex<DateTime> = MapIndex::new();
    for n in [5u8, 3, 9, 3, 1] {
        table.put(key(n), at(n as i64 * 10));
    }
    table.put(key(3), at(1));
    let rows: Vec<(u8, i64)> = table.iter().iter().map(|r| (r.0.bytes[0], r.1.secs)).collect();
    assert_eq!(rows, vec![(1, 10), (3, 1), (5, 50), (9, 90)]);
    assert_eq!(table.iter().len(), 4);
    assert_eq!(table.get(&key(9)), Some(&at(90)));
    assert_eq!(table.get(&key(4)), None);
}
