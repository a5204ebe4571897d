//! The time service as a whole.

use vstd::prelude::*;

use super::clock::DateTime;
use super::provider::{MockTimeProvider, SystemTimeProvider, TimeProvider, TimeSubscriber};
use super::transactions::TxTime;
use crate::crypto::PublicKey;

verus! {

/// Time service id.
pub const SERVICE_ID: u16 = 4;

/// Time service name.
pub const SERVICE_NAME: &'static str = "exonum_time";

/// What the service does after a block was committed.
#[derive(Clone, Copy, Debug)]
pub enum CommitCall {
    /// Tells a subscriber the time.
    Tell { subscriber: usize, time: DateTime },
    /// Reports the time by a transaction.
    Report(TxTime),
}

/// The time service.
pub struct TimeService<P: TimeProvider, S: TimeSubscriber> {
    /// Current time.
    pub time: P,
    /// Who is told the current time after each block.
    pub subscribers: Vec<S>,
}

impl<S: TimeSubscriber> Default for TimeService<SystemTimeProvider, S> {
    /// The service with the clock of the machine and without subscribers.
    fn default() -> (service: Self)
        ensures
            service.time == SystemTimeProvider,
            service.subscribers@ == Seq::<S>::empty(),
    {
        TimeService::with_provider(SystemTimeProvider)
    }
}

impl<S: TimeSubscriber> TimeService<SystemTimeProvider, S> {
    /// Create a new `TimeService`.
    pub fn new() -> (service: Self)
        ensures
            service.time == SystemTimeProvider,
            service.subscribers@ == Seq::<S>::empty(),
    {
        TimeService::default()
    }
}

impl<P: TimeProvider, S: TimeSubscriber> TimeService<P, S> {
    /// Create a new `TimeService` with the given time provider.
    pub fn with_provider(time_provider: P) -> (service: Self)
        ensures
            service.time == time_provider,
            service.subscribers@ == Seq::<S>::empty(),
    {
        TimeService { time: time_provider, subscribers: Vec::new() }
    }

    /// Adds a subscriber behind those that there are.
    pub fn subscribe(&mut self, subscriber: S)
        ensures
            final(self).time == old(self).time,
            final(self).subscribers@ == old(self).subscribers@.push(subscriber),
    {
        self.subscribers.push(subscriber);
    }

    /// Name of the service.
    pub fn service_name(&self) -> (name: &'static str)
        ensures
            name@ == "exonum_time"@,
    {
        SERVICE_NAME
    }

    /// Service ID, by which transactions find the service.
    pub fn service_id(&self) -> (id: u16)
        ensures
            id == 4,
    {
        SERVICE_ID
    }

    /// Tells whether the provider may have reported the given time.
    pub open spec fn reports(self, time: DateTime) -> bool {
        call_ensures(P::current_time, (&self.time,), time)
    }

    /// Tells whether a subscriber was told a time that the provider has reported.
    pub open spec fn was_told(self, i: int) -> bool {
        exists|time: DateTime| #[trigger]
            self.reports(time) && call_ensures(S::call, (&self.subscribers@[i], time), ())
    }

    /// What is done after a block was committed, in this order, given what the provider
    /// reports each time it is asked: on a validator every subscriber is told the time, and
    /// then the time is reported; on other nodes nothing is done.
    pub open spec fn calls(
        self,
        validator_id: Option<u16>,
        public_key: PublicKey,
        times: Seq<DateTime>,
    ) -> Seq<CommitCall> {
        if validator_id is None {
            Seq::empty()
        } else {
            let count = self.subscribers@.len();
            Seq::new(
                count,
                |i: int| CommitCall::Tell { subscriber: i as usize, time: times[i] },
            ).push(CommitCall::Report(TxTime { time: times[count as int], pub_key: public_key }))
        }
    }

    /// What a validator does next after a block was committed, given how many subscribers
    /// it has told the time already, and what the provider reports now.
    pub fn next_call(&self, told: usize, public_key: PublicKey, time: DateTime) -> (call:
        CommitCall)
        ensures
            call == (if told < self.subscribers@.len() {
                CommitCall::Tell { subscriber: told, time }
            } else {
                CommitCall::Report(TxTime { time, pub_key: public_key })
            }),
    {
        if told < self.subscribers.len() {
            CommitCall::Tell { subscriber: told, time }
        } else {
            CommitCall::Report(TxTime { time, pub_key: public_key })
        }
    }

    /// Lists what is done after a block was committed, given what the provider reports each
    /// time it is asked. On a validator it is asked once for each subscriber, and once more.
    pub fn commit_calls(
        &self,
        validator_id: Option<u16>,
        public_key: PublicKey,
        times: &Vec<DateTime>,
    ) -> (calls: Vec<CommitCall>)
        requires
            validator_id is Some ==> times@.len() == self.subscribers@.len() + 1,
        ensures
            calls@ == self.calls(validator_id, public_key, times@),
    {
        let mut calls: Vec<CommitCall> = Vec::new();
        if validator_id.is_none() {
            return calls;
        }
        let mut told: usize = 0;
        while told < times.len()
            invariant
                validator_id is Some,
                told <= times@.len(),
                times@.len() == self.subscribers@.len() + 1,
                calls@ == self.calls(validator_id, public_key, times@).take(told as int),
            decreases times@.len() - told,
        {
            calls.push(self.next_call(told, public_key, times[told]));
            told += 1;
        }
        calls
    }

    /// After a block was committed: on a validator, tells all subscribers the current
    /// time and returns the transaction with which the validator reports it. Other nodes
    /// do neither.
    pub fn handle_commit(&self, validator_id: Option<u16>, public_key: PublicKey) -> (tx: Option<
        TxTime,
    >)
        requires
            validator_id is Some ==> forall|i: int, time: DateTime|
                0 <= i < self.subscribers@.len() && self.reports(time)
                    ==> #[trigger] self.subscribers@[i].accepts(time),
        ensures
            tx is Some <==> validator_id is Some,
            validator_id is Some ==> forall|i: int|
                0 <= i < self.subscribers@.len() ==> self.was_told(i),
            tx is Some ==> tx->0.pub_key == public_key && self.reports(tx->0.time),
    {
        // The transaction must be created by the validator.
        if validator_id.is_none() {
            return None;
        }
        let mut told: usize = 0;
        loop
            invariant
                validator_id is Some,
                told <= self.subscribers@.len(),
                forall|i: int, time: DateTime|
                    0 <= i < self.subscribers@.len() && self.reports(time)
                        ==> #[trigger] self.subscribers@[i].accepts(time),
                forall|j: int| 0 <= j < told ==> self.was_told(j),
            decreases self.subscribers@.len() - told,
        {
            let now = self.time.current_time();
            assert(self.reports(now));
            match self.next_call(told, public_key, now) {
                CommitCall::Tell { subscriber, time } => {
                    assert(self.subscribers@[subscriber as int].accepts(time));
                    self.subscribers[subscriber].call(time);
                    assert(self.was_told(subscriber as int));
                    assert(told < self.subscribers.len());
                    told += 1;
                },
                CommitCall::Report(tx) => {
                    return Some(tx);
                },
            }
        }
    }
}

/// Only a validator does anything: it tells every subscriber the time once, in the order in
/// which they have subscribed, and after that reports the time once.
pub proof fn subscribers_are_told_once_in_order<P: TimeProvider, S: TimeSubscriber>(
    service: TimeService<P, S>,
    validator_id: Option<u16>,
    public_key: PublicKey,
    times: Seq<DateTime>,
    i: int,
    j: int,
)
    requires
        0 <= i < service.subscribers@.len(),
        0 <= j < service.calls(validator_id, public_key, times).len(),
    ensures
        ({
            let calls = service.calls(validator_id, public_key, times);
            &&& validator_id is Some
            &&& calls[j] is Tell && calls[j]->subscriber == i <==> j == i
            &&& calls[j] is Report <==> j == calls.len() - 1
            &&& match calls[j] {
                CommitCall::Tell { subscriber, time } => time == times[j],
                CommitCall::Report(tx) => tx == (TxTime { time: times[j], pub_key: public_key }),
            }
        }),
{
    assert(service.subscribers.len() == service.subscribers@.len());
}

/// A service with a mock provider reports the time of the provider and no other.
pub proof fn mock_time_is_reported<S: TimeSubscriber>(
    service: TimeService<MockTimeProvider, S>,
    time: DateTime,
)
    requires
        service.reports(time),
    ensures
        time == service.time.time,
{
}

/// A time service creator for the node.
#[derive(Clone, Copy, Debug)]
pub struct TimeServiceFactory;

impl TimeServiceFactory {
    /// Makes a time service with the clock of the machine.
    pub fn make_service<S: TimeSubscriber>(&mut self) -> (service: TimeService<
        SystemTimeProvider,
        S,
    >)
        ensures
            service.time == SystemTimeProvider,
            service.subscribers@ == Seq::<S>::empty(),
    {
        TimeService::new()
    }
}

/// What a service reports is what its provider may answer, and whom it has told the time it has
/// called with a time that the provider may answer.
pub proof fn telling_is_calling<P: TimeProvider, S: TimeSubscriber>(
    service: TimeService<P, S>,
    time: DateTime,
    i: int,
)
    ensures
        service.reports(time) <==> call_ensures(P::current_time, (&service.time,), time),
        service.was_told(i) ==> exists|told: DateTime|
            #![trigger call_ensures(S::call, (&service.subscribers@[i], told), ())]
            call_ensures(P::current_time, (&service.time,), told) && call_ensures(
                S::call,
                (&service.subscribers@[i], told),
                (),
            ),
{
    if service.was_told(i) {
        let told = choose|told: DateTime| #[trigger]
            service.reports(told) && call_ensures(S::call, (&service.subscribers@[i], told), ());
        assert(call_ensures(S::call, (&service.subscribers@[i], told), ()));
    }
}

/// After a block was committed, a validator makes one call for each subscriber and one more,
/// and other nodes make none.
pub proof fn only_validators_make_calls<P: TimeProvider, S: TimeSubscriber>(
    service: TimeService<P, S>,
    validator_id: Option<u16>,
    public_key: PublicKey,
    times: Seq<DateTime>,
)
    ensures
        validator_id is None ==> service.calls(validator_id, public_key, times).len() == 0,
        validator_id is Some ==> service.calls(validator_id, public_key, times).len()
            == service.subscribers@.len() + 1,
{
}

} // verus!
