//! Where a node has its own time from, and who is told about it.

use vstd::prelude::*;

use super::clock::{utc_now, DateTime, Duration};

verus! {

/// A helper trait that provides the node with a current time.
pub trait TimeProvider: Send + Sync + std::fmt::Debug {
    /// Returns the current time.
    fn current_time(&self) -> DateTime;
}

/// Provider that reads the clock of the machine.
#[derive(Clone, Copy, Debug)]
pub struct SystemTimeProvider;

impl TimeProvider for SystemTimeProvider {
    fn current_time(&self) -> (time: DateTime)
        ensures
            time.valid(),
            time.secs >= 0,
            !time.is_leap(),
    {
        utc_now()
    }
}

/// Mock time provider for service testing.
///
/// The provider reports the time that it was given, until it is given another one. To
/// adjust the time that a service reports, keep the provider behind a lock, and give the
/// service a provider that looks there.
#[derive(Debug)]
pub struct MockTimeProvider {
    /// Local time value.
    pub time: DateTime,
}

impl Default for MockTimeProvider {
    /// Initializes the provider with the time set to the Unix epoch start.
    fn default() -> (provider: Self)
        ensures
            provider.time == (DateTime { secs: 0, nanos: 0 }),
            provider.time.valid(),
    {
        Self::new(DateTime::epoch())
    }
}

impl MockTimeProvider {
    /// Creates a new `MockTimeProvider` with time value equal to `time`.
    pub fn new(time: DateTime) -> (provider: Self)
        ensures
            provider.time == time,
    {
        MockTimeProvider { time }
    }

    /// Gets the time value currently reported by the provider.
    pub fn time(&self) -> (time: DateTime)
        ensures
            time == self.time,
    {
        self.time
    }

    /// Sets the time value to `new_time`.
    pub fn set_time(&mut self, new_time: DateTime)
        ensures
            final(self).time == new_time,
    {
        self.time = new_time;
    }

    /// Adds `duration` to the value of `time`.
    pub fn add_time(&mut self, duration: Duration)
        requires
            old(self).time.valid(),
            duration.valid(),
            old(self).time.plus(duration) is Some,
        ensures
            old(self).time.plus(duration) == Some(final(self).time),
            final(self).time.valid(),
    {
        self.time = self.time.checked_add_signed(duration).unwrap();
    }
}

impl TimeProvider for MockTimeProvider {
    fn current_time(&self) -> (time: DateTime)
        ensures
            time == self.time,
    {
        self.time()
    }
}

/// Time on which the validators agree.
pub type ConsolidatedTime = DateTime;

/// Whoever is told the time after a block is committed.
pub trait TimeSubscriber: Send + Sync {
    /// Tells whether the subscriber may be told the given time.
    spec fn accepts(&self, time: ConsolidatedTime) -> bool;

    /// Tells the subscriber the time.
    fn call(&self, time: ConsolidatedTime)
        requires
            self.accepts(time),
    ;
}

impl<T> TimeSubscriber for T where T: Fn(ConsolidatedTime) + Send + Sync {
    open spec fn accepts(&self, time: ConsolidatedTime) -> bool {
        call_requires(*self, (time,))
    }

    fn call(&self, time: ConsolidatedTime)
        ensures
            call_ensures(*self, (time,), ()),
    {
        (*self)(time)
    }
}

/// A closure accepts a time just where it can be called with it.
pub proof fn closures_accept_what_they_can_be_called_with<T>(f: T, time: ConsolidatedTime) where
    T: Fn(ConsolidatedTime) + Send + Sync,

    ensures
        f.accepts(time) <==> call_requires(f, (time,)),
{
}

} // verus!
