//! The time oracle: clocks, reports of validators, and the time they agree on.

use std::sync::{Arc, Mutex, RwLock};

use auction_ledger::crypto::PublicKey;
use auction_ledger::execution::ExecutionError;
use auction_ledger::routing::Method;
use auction_ledger::storage::{Entry, MapIndex};
use auction_ledger::time::api::{Endpoint, TimeApi, ValidatorTime};
use auction_ledger::time::clock::{DateTime, Duration, MAX_SECS, MIN_SECS};
use auction_ledger::time::error::Error;
use auction_ledger::time::provider::{
    ConsolidatedTime, MockTimeProvider, SystemTimeProvider, TimeProvider,
};
use auction_ledger::time::schema::{TimeSchema, TIME_ENTRY, VALIDATORS_TIMES_TABLE};
use auction_ledger::time::service::{
    CommitCall, TimeService, TimeServiceFactory, SERVICE_ID, SERVICE_NAME,
};
use auction_ledger::time::transactions::TxTime;

fn key(n: u8) -> PublicKey {
    PublicKey::new([n; 32])
}

fn at(secs: i64) -> DateTime {
    DateTime::from_timestamp(secs, 0).unwrap()
}

fn report(
    schema: &mut TimeSchema,
    validators: &Vec<PublicKey>,
    n: u8,
    secs: i64,
) -> Result<(), Error> {
    TxTime { time: at(secs), pub_key: key(n) }.execute(validators, schema)
}

fn group(size: u8) -> Vec<PublicKey> {
    (1..=size).map(key).collect()
}

/// Mock provider that a test and a service share.
#[derive(Debug)]
struct Shared(Arc<RwLock<MockTimeProvider>>);

impl TimeProvider for Shared {
    fn current_time(&self) -> DateTime {
        self.0.read().unwrap().current_time()
    }
}

fn told(_: ConsolidatedTime) {}

#[test]
fn timestamps_within_the_calendar() {
    assert_eq!(DateTime::epoch(), DateTime { secs: 0, nanos: 0 });
    let time = DateTime::from_timestamp(-1, 999_999_999).unwrap();
    assert_eq!((time.secs, time.nanos), (-1, 999_999_999));
    assert!(DateTime::from_timestamp(0, 1_000_000_000).is_none());
    assert!(DateTime::from_timestamp(59, 1_999_999_999).is_some());
    assert!(DateTime::from_timestamp(59, 2_000_000_000).is_none());
    assert!(DateTime::from_timestamp(-1, 1_500_000_000).is_some());
    assert!(DateTime::from_timestamp(-59, 1_500_000_000).is_none());
    assert!(DateTime::from_timestamp(MIN_SECS, 0).is_some());
    assert!(DateTime::from_timestamp(MIN_SECS - 1, 0).is_none());
    assert!(DateTime::from_timestamp(MAX_SECS, 999_999_999).is_some());
    assert!(DateTime::from_timestamp(MAX_SECS, 1_000_000_000).is_some());
    assert!(DateTime::from_timestamp(MAX_SECS + 1, 0).is_none());
    assert!(DateTime::from_timestamp(i64::MAX, 0).is_none());
    assert!(DateTime::from_timestamp(i64::MIN, 0).is_none());
}

#[test]
fn the_calendar_ends_where_chrono_says() {
    assert_eq!(chrono::DateTime::<chrono::Utc>::MIN_UTC.timestamp(), MIN_SECS);
    assert_eq!(chrono::DateTime::<chrono::Utc>::MAX_UTC.timestamp(), MAX_SECS);
}

#[test]
fn spans_are_added() {
    let plus = |secs: i64, nanos: u32, s: i64, n: u32| {
        DateTime::from_timestamp(secs, nanos)
            .unwrap()
            .checked_add_signed(Duration { secs: s, nanos: n })
            .map(|t| (t.secs, t.nanos))
    };
    assert_eq!(plus(10, 0, 15, 0), Some((25, 0)));
    assert_eq!(plus(10, 600_000_000, 0, 600_000_000), Some((11, 200_000_000)));
    assert_eq!(plus(10, 100_000_000, -1, 800_000_000), Some((9, 900_000_000)));
    assert_eq!(plus(0, 0, -1, 0), Some((-1, 0)));
    assert_eq!(plus(-1, 500_000_000, 0, 500_000_000), Some((0, 0)));
    assert_eq!(plus(MAX_SECS, 0, 0, 999_999_999), Some((MAX_SECS, 999_999_999)));
    assert_eq!(plus(MAX_SECS, 0, 1, 0), None);
    assert_eq!(plus(MIN_SECS, 0, -1, 999_999_999), None);
    assert_eq!(plus(0, 0, 9_000_000_000_000_000, 0), None);
    assert_eq!(plus(MIN_SECS, 0, MAX_SECS - MIN_SECS, 0), Some((MAX_SECS, 0)));
}

#[test]
fn spans_are_added_within_a_leap_second() {
    let leap = DateTime::from_timestamp(59, 1_500_000_000).unwrap();
    let plus = |s: i64, n: u32| {
        leap.checked_add_signed(Duration { secs: s, nanos: n }).map(|t| (t.secs, t.nanos))
    };
    assert_eq!(plus(0, 0), Some((59, 1_500_000_000)));
    assert_eq!(plus(0, 300_000_000), Some((59, 1_800_000_000)));
    assert_eq!(plus(0, 500_000_000), Some((60, 0)));
    assert_eq!(plus(0, 800_000_000), Some((60, 300_000_000)));
    assert_eq!(plus(1, 0), Some((60, 500_000_000)));
    assert_eq!(plus(10, 0), Some((69, 500_000_000)));
    assert_eq!(plus(-1, 700_000_000), Some((59, 1_200_000_000)));
    assert_eq!(plus(-1, 200_000_000), Some((59, 700_000_000)));
    assert_eq!(plus(-1, 0), Some((59, 500_000_000)));
    assert_eq!(plus(-2, 0), Some((58, 500_000_000)));
}

#[test]
fn times_are_compared() {
    assert!(at(2).at_or_after(&at(2)));
    assert!(at(3).at_or_after(&at(2)));
    assert!(!at(2).at_or_after(&at(3)));
    let later = DateTime::from_timestamp(2, 1).unwrap();
    assert!(later.at_or_after(&at(2)));
    assert!(!at(2).at_or_after(&later));
    let leap = DateTime::from_timestamp(59, 1_000_000_000).unwrap();
    assert!(at(60).at_or_after(&leap));
    assert!(!leap.at_or_after(&at(60)));
    assert!(at(-5) < at(-4) && at(2) < later);
}

#[test]
fn whole_seconds_make_a_span() {
    assert_eq!(Duration::seconds(-3), Duration { secs: -3, nanos: 0 });
}

#[test]
fn mock_provider_reports_what_it_is_given() {
    let mut provider = MockTimeProvider::default();
    assert_eq!(provider.time(), at(0));
    provider.add_time(Duration::seconds(15));
    assert_eq!(provider.current_time(), at(15));
    provider.set_time(at(7));
    assert_eq!(provider.time(), at(7));
    assert_eq!(MockTimeProvider::new(at(-2)).current_time(), at(-2));
}

#[test]
fn system_provider_reads_the_clock() {
    let before = chrono::Utc::now().timestamp();
    let time = SystemTimeProvider.current_time();
    let after = chrono::Utc::now().timestamp();
    assert!(before <= time.secs && time.secs <= after);
    assert!(time.nanos < 1_000_000_000);
}

#[test]
fn a_single_validator_sets_the_time() {
    let clock = Arc::new(RwLock::new(MockTimeProvider::default()));
    let service = TimeService::<Shared, fn(DateTime)>::with_provider(Shared(clock.clone()));
    clock.write().unwrap().add_time(Duration::seconds(15));
    let mut schema = TimeSchema::empty();
    let tx = service.handle_commit(Some(0), key(1)).unwrap();
    assert_eq!(tx.execute(&vec![key(1)], &mut schema), Ok(()));
    assert_eq!(schema.time().get(), Some(at(15)));
    assert_eq!(TimeApi::get_current_time(&schema), Some(at(15)));
}

#[test]
fn other_nodes_report_nothing() {
    let heard = Arc::new(Mutex::new(Vec::new()));
    let ears = heard.clone();
    let mut service = TimeService::with_provider(MockTimeProvider::new(at(3)));
    service.subscribe(move |time: DateTime| ears.lock().unwrap().push(time));
    assert!(service.handle_commit(None, key(1)).is_none());
    assert!(heard.lock().unwrap().is_empty());
}

#[test]
fn subscribers_are_told_the_time() {
    let heard = Arc::new(Mutex::new(Vec::new()));
    let mut service = TimeService::with_provider(MockTimeProvider::new(at(3)));
    for n in 0..3 {
        let ears = heard.clone();
        service.subscribe(move |time: DateTime| ears.lock().unwrap().push((n, time)));
    }
    let tx = service.handle_commit(Some(2), key(9)).unwrap();
    assert_eq!((tx.time, tx.pub_key), (at(3), key(9)));
    assert_eq!(*heard.lock().unwrap(), vec![(0, at(3)), (1, at(3)), (2, at(3))]);
}

#[test]
fn calls_are_listed_in_order() {
    let mut service = TimeService::<_, fn(DateTime)>::with_provider(MockTimeProvider::default());
    service.subscribe(told);
    service.subscribe(told);
    let calls = service.commit_calls(Some(0), key(9), &vec![at(1), at(2), at(3)]);
    assert_eq!(calls.len(), 3);
    assert!(matches!(calls[0], CommitCall::Tell { subscriber: 0, time } if time == at(1)));
    assert!(matches!(calls[1], CommitCall::Tell { subscriber: 1, time } if time == at(2)));
    assert!(matches!(
        calls[2],
        CommitCall::Report(tx) if tx.time == at(3) && tx.pub_key == key(9)
    ));
    assert!(service.commit_calls(None, key(9), &vec![]).is_empty());
    assert!(matches!(service.next_call(1, key(9), at(4)), CommitCall::Tell { subscriber: 1, .. }));
    assert!(matches!(service.next_call(2, key(9), at(4)), CommitCall::Report(_)));
}

#[test]
fn services_start_without_subscribers() {
    let mut service: TimeService<SystemTimeProvider, fn(DateTime)> = TimeService::new();
    assert_eq!(service.subscribers.len(), 0);
    service.subscribe(told);
    assert_eq!(service.subscribers.len(), 1);
    assert!(service.handle_commit(Some(0), key(1)).unwrap().time.secs > 0);
    let made = TimeServiceFactory.make_service::<fn(DateTime)>();
    assert_eq!(made.subscribers.len(), 0);
    assert_eq!(made.service_name(), "exonum_time");
    assert_eq!(made.service_id(), 4);
    assert_eq!((SERVICE_NAME, SERVICE_ID), ("exonum_time", 4));
    assert_eq!(VALIDATORS_TIMES_TABLE, "exonum_time.validators_times");
    assert_eq!(TIME_ENTRY, "exonum_time.time");
}

#[test]
fn unknown_senders_are_refused() {
    let mut schema = TimeSchema::empty();
    assert_eq!(report(&mut schema, &group(4), 9, 5), Err(Error::UnknownSender));
    assert_eq!(report(&mut schema, &vec![], 1, 5), Err(Error::UnknownSender));
    assert_eq!(schema.validators_times().iter().len(), 0);
    assert_eq!(schema.time().get(), None);
}

#[test]
fn a_report_has_to_be_later_than_the_last() {
    let mut schema = TimeSchema::empty();
    let validators = group(4);
    assert_eq!(report(&mut schema, &validators, 1, 5), Ok(()));
    assert_eq!(report(&mut schema, &validators, 1, 5), Err(Error::ValidatorTimeIsGreater));
    assert_eq!(report(&mut schema, &validators, 1, 4), Err(Error::ValidatorTimeIsGreater));
    assert_eq!(schema.validators_times().get(&key(1)), Some(&at(5)));
    assert_eq!(report(&mut schema, &validators, 1, 6), Ok(()));
    assert_eq!(schema.validators_times().get(&key(1)), Some(&at(6)));
    assert_eq!(report(&mut schema, &validators, 2, 9), Ok(()));
    assert_eq!(report(&mut schema, &validators, 1, 5), Err(Error::ValidatorTimeIsGreater));
    assert_eq!(report(&mut schema, &vec![key(2)], 1, 5), Err(Error::UnknownSender));
}

#[test]
fn four_validators_agree_on_the_second_latest() {
    let mut schema = TimeSchema::empty();
    let validators = group(4);
    assert_eq!(report(&mut schema, &validators, 1, 10), Ok(()));
    assert_eq!(report(&mut schema, &validators, 2, 30), Ok(()));
    assert_eq!(schema.time().get(), None);
    assert_eq!(report(&mut schema, &validators, 3, 20), Ok(()));
    assert_eq!(schema.time().get(), Some(at(20)));
    assert_eq!(report(&mut schema, &validators, 4, 25), Ok(()));
    assert_eq!(schema.time().get(), Some(at(25)));
    // A clock that runs away alone changes nothing.
    assert_eq!(report(&mut schema, &validators, 2, 1000), Ok(()));
    assert_eq!(schema.time().get(), Some(at(25)));
    assert_eq!(report(&mut schema, &validators, 1, 900), Ok(()));
    assert_eq!(schema.time().get(), Some(at(900)));
}

#[test]
fn seven_validators_need_five_reports() {
    let mut schema = TimeSchema::empty();
    let validators = group(7);
    for (n, secs) in [(1, 50), (2, 40), (3, 30), (4, 20)] {
        assert_eq!(report(&mut schema, &validators, n, secs), Ok(()));
        assert_eq!(schema.time().get(), None);
    }
    assert_eq!(report(&mut schema, &validators, 5, 10), Ok(()));
    assert_eq!(schema.time().get(), Some(at(30)));
}

#[test]
fn three_validators_follow_the_latest() {
    let mut schema = TimeSchema::empty();
    let validators = group(3);
    assert_eq!(report(&mut schema, &validators, 2, 10), Ok(()));
    assert_eq!(schema.time().get(), Some(at(10)));
    assert_eq!(report(&mut schema, &validators, 1, 40), Ok(()));
    assert_eq!(schema.time().get(), Some(at(40)));
    assert_eq!(report(&mut schema, &validators, 3, 20), Ok(()));
    assert_eq!(schema.time().get(), Some(at(40)));
}

#[test]
fn equal_reports_count_one_by_one() {
    let mut schema = TimeSchema::empty();
    let validators = group(4);
    assert_eq!(report(&mut schema, &validators, 1, 10), Ok(()));
    assert_eq!(report(&mut schema, &validators, 2, 10), Ok(()));
    assert_eq!(report(&mut schema, &validators, 3, 10), Ok(()));
    assert_eq!(schema.time().get(), Some(at(10)));
}

#[test]
fn former_validators_do_not_count() {
    let mut schema = TimeSchema::empty();
    let before = group(4);
    assert_eq!(report(&mut schema, &before, 1, 10), Ok(()));
    assert_eq!(report(&mut schema, &before, 2, 500), Ok(()));
    // The second validator leaves, a fifth one joins.
    let validators = vec![key(1), key(3), key(4), key(5)];
    assert_eq!(report(&mut schema, &validators, 3, 20), Ok(()));
    assert_eq!(schema.time().get(), None);
    assert_eq!(report(&mut schema, &validators, 5, 30), Ok(()));
    assert_eq!(schema.time().get(), Some(at(20)));
}

#[test]
fn the_time_does_not_go_back() {
    let mut times = MapIndex::new();
    times.put(key(1), at(5));
    let mut schema = TimeSchema::new(times, Entry::new(Some(at(100))));
    assert_eq!(report(&mut schema, &group(1), 1, 6), Ok(()));
    assert_eq!(schema.time().get(), Some(at(100)));
    assert_eq!(report(&mut schema, &group(1), 1, 101), Ok(()));
    assert_eq!(schema.time().get(), Some(at(101)));
    schema.time_mut().set(at(7));
    TxTime::update_consolidated_time(&group(1), &mut schema);
    assert_eq!(schema.time().get(), Some(at(101)));
}

#[test]
fn the_steps_of_a_report() {
    let mut schema = TimeSchema::empty();
    let tx = TxTime { time: at(5), pub_key: key(1) };
    assert_eq!((*tx.signer(), tx.verify(true), tx.verify(false)), (key(1), true, false));
    assert_eq!(tx.check_signed_by_validator(&group(2)), Ok(()));
    assert_eq!(tx.check_signed_by_validator(&vec![key(2)]), Err(Error::UnknownSender));
    assert_eq!(tx.update_validator_time(&mut schema), Ok(()));
    assert_eq!(schema.time().get(), None);
    assert_eq!(tx.update_validator_time(&mut schema), Err(Error::ValidatorTimeIsGreater));
    schema.validators_times_mut().put(key(1), at(1));
    assert_eq!(tx.update_validator_time(&mut schema), Ok(()));
}

#[test]
fn all_times_are_listed_in_the_order_of_keys() {
    let mut schema = TimeSchema::empty();
    let validators = group(9);
    for n in [9u8, 2, 5] {
        assert_eq!(report(&mut schema, &validators, n, n as i64), Ok(()));
    }
    let known = |n: u8| ValidatorTime { public_key: key(n), time: Some(at(n as i64)) };
    assert_eq!(TimeApi::get_all_validators_times(&schema), vec![known(2), known(5), known(9)]);
    let current = vec![key(5), key(1), key(9), key(5)];
    let unknown = ValidatorTime { public_key: key(1), time: None };
    assert_eq!(
        TimeApi::get_current_validators_times(&schema, &current),
        vec![known(5), unknown, known(9), known(5)]
    );
    assert_eq!(TimeApi::get_current_time(&schema), None);
}

#[test]
fn routes_of_the_time_service() {
    let listed = |routes: Vec<auction_ledger::routing::Route<Endpoint>>| {
        routes
            .iter()
            .map(|r| (r.method, r.pattern, r.endpoint, r.name))
            .collect::<Vec<(Method, &str, Endpoint, &str)>>()
    };
    assert_eq!(
        listed(TimeApi::wire()),
        vec![(Method::Get, "v1/current_time", Endpoint::GetCurrentTime, "get_current_time")]
    );
    assert_eq!(
        listed(TimeApi::wire_private()),
        vec![
            (
                Method::Get,
                "v1/validators_times",
                Endpoint::GetCurrentValidatorsTimes,
                "get_current_validators_times",
            ),
            (
                Method::Get,
                "v1/validators_times/all",
                Endpoint::GetAllValidatorsTimes,
                "get_all_validators_times",
            ),
        ]
    );
}

#[test]
fn errors_of_the_time_service() {
    let error = ExecutionError::from(Error::UnknownSender);
    assert_eq!((error.code, error.description), (0, None));
    let error = ExecutionError::from(Error::ValidatorTimeIsGreater);
    assert_eq!((error.code, error.description), (1, None));
    assert_eq!(Error::UnknownSender.description(), "Not authored by a validator");
    assert_eq!(
        Error::ValidatorTimeIsGreater.description(),
        "The validator time is greater than the proposed one"
    );
}

#[test]
fn hashes_of_the_tables() {
    let root = auction_ledger::crypto::Hash::new([1; 32]);
    let time = auction_ledger::crypto::Hash::new([2; 32]);
    let hashes = TimeSchema::state_hash(root, time);
    assert_eq!(hashes.len(), 2);
    assert_eq!((hashes[0].bytes, hashes[1].bytes), ([1; 32], [2; 32]));
}
