//! Tables of the time service.

use vstd::prelude::*;

use super::clock::DateTime;
use crate::crypto::PublicKey;
use crate::storage::{table_is_finite, Entry, MapIndex};

verus! {

/// Name under which the times of the validators are stored.
pub const VALIDATORS_TIMES_TABLE: &'static str = "exonum_time.validators_times";

/// Name under which the consolidated time is stored.
pub const TIME_ENTRY: &'static str = "exonum_time.time";

/// State of the time service.
#[verifier::ext_equal]
pub struct TimeState {
    /// Time that each validator has last reported.
    pub validators_times: Map<PublicKey, DateTime>,
    /// Consolidated time.
    pub time: Option<DateTime>,
}

/// Tables of the time service.
pub struct TimeSchema {
    validators_times: MapIndex<DateTime>,
    time: Entry<DateTime>,
}

impl View for TimeSchema {
    type V = TimeState;

    closed spec fn view(&self) -> TimeState {
        TimeState { validators_times: self.validators_times@, time: self.time@ }
    }
}

impl TimeSchema {
    /// Makes a schema of its tables.
    pub fn new(validators_times: MapIndex<DateTime>, time: Entry<DateTime>) -> (schema: Self)
        ensures
            schema@ == (TimeState { validators_times: validators_times@, time: time@ }),
    {
        TimeSchema { validators_times, time }
    }

    /// Makes a schema with nothing in its tables.
    pub fn empty() -> (schema: Self)
        ensures
            schema@ == (TimeState { validators_times: Map::empty(), time: None }),
    {
        Self::new(MapIndex::new(), Entry::new(None))
    }

    /// Returns the table that stores the time of every validator.
    pub fn validators_times(&self) -> (index: &MapIndex<DateTime>)
        ensures
            index@ == self@.validators_times,
    {
        &self.validators_times
    }

    /// Returns stored time.
    pub fn time(&self) -> (entry: &Entry<DateTime>)
        ensures
            entry@ == self@.time,
    {
        &self.time
    }

    /// Returns hashes for stored tables, given the root hash of the table of times and
    /// the hash of the consolidated time.
    pub fn state_hash(
        validators_times_root: crate::crypto::Hash,
        time_hash: crate::crypto::Hash,
    ) -> (hashes: Vec<crate::crypto::Hash>)
        ensures
            hashes@ == seq![validators_times_root, time_hash],
    {
        vec![validators_times_root, time_hash]
    }

    /// Mutable reference to the table that stores the time of every validator.
    pub fn validators_times_mut(&mut self) -> (index: &mut MapIndex<DateTime>)
        ensures
            (*index)@ == old(self)@.validators_times,
            final(self)@ == (TimeState { validators_times: (*final(index))@, ..old(self)@ }),
    {
        &mut self.validators_times
    }

    /// Mutable reference to the stored time.
    pub fn time_mut(&mut self) -> (entry: &mut Entry<DateTime>)
        ensures
            (*entry)@ == old(self)@.time,
            final(self)@ == (TimeState { time: (*final(entry))@, ..old(self)@ }),
    {
        &mut self.time
    }
}

/// A schema has the times of finitely many validators.
pub proof fn validators_times_are_finite(schema: TimeSchema)
    ensures
        schema@.validators_times.dom().finite(),
{
    table_is_finite(schema.validators_times.rows());
}

} // verus!
