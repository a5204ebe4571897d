//! Transactions of the time service.

use vstd::prelude::*;

use super::clock::DateTime;
use super::error::Error;
use super::schema::{TimeSchema, TimeState};
use crate::crypto::{key_lt, key_order_is_total, PublicKey};
use crate::storage::{ascending, ascending_rows_are_a_map, row_has, row_views, table};

verus! {

/// Transaction that is sent by the validator after the commit of the block.
#[derive(Clone, Copy, Debug)]
pub struct TxTime {
    /// Time of the validator.
    pub time: DateTime,
    /// Public key of the validator.
    pub pub_key: PublicKey,
}

/// The largest number of Byzantine nodes that a number of validators can bear.
pub open spec fn max_byzantine_nodes(validators: nat) -> nat {
    ((validators - 1) / 3) as nat
}

/// Current validators whose times are known.
pub open spec fn known(
    times: Map<PublicKey, DateTime>,
    validators: Seq<PublicKey>,
) -> Set<PublicKey> {
    times.dom().filter(|key: PublicKey| validators.contains(key))
}

/// Those among some validators who have reported a time after the given one.
pub open spec fn after(
    times: Map<PublicKey, DateTime>,
    among: Set<PublicKey>,
    time: DateTime,
) -> Set<PublicKey> {
    among.filter(|key: PublicKey| times[key].instant() > time.instant())
}

/// Those among some validators who have reported the given time or one after it.
pub open spec fn at_or_after(
    times: Map<PublicKey, DateTime>,
    among: Set<PublicKey>,
    time: DateTime,
) -> Set<PublicKey> {
    among.filter(|key: PublicKey| times[key].instant() >= time.instant())
}

/// Tells whether a reported time has the given rank, counted from the latest one as
/// zero: no more than that many validators have reported later times, and more than
/// that many have reported times that are not earlier.
pub open spec fn has_rank(
    times: Map<PublicKey, DateTime>,
    among: Set<PublicKey>,
    rank: nat,
    time: DateTime,
) -> bool {
    &&& exists|key: PublicKey| among.contains(key) && #[trigger] times[key] == time
    &&& after(times, among, time).len() <= rank
    &&& rank < at_or_after(times, among, time).len()
}

/// Time on which the validators agree: of the times that are known, the latest one but
/// for as many as there may be Byzantine nodes. `None` as long as too few are known.
pub open spec fn agreed(
    times: Map<PublicKey, DateTime>,
    validators: Seq<PublicKey>,
) -> Option<DateTime> {
    let byzantine = max_byzantine_nodes(validators.len());
    if known(times, validators).len() <= 2 * byzantine {
        None
    } else {
        Some(
            choose|time: DateTime| has_rank(times, known(times, validators), byzantine, time),
        )
    }
}

impl TimeState {
    /// Takes down the time of a validator, which has to be later than the one before.
    pub open spec fn report(self, pub_key: PublicKey, time: DateTime) -> Result<
        TimeState,
        Error,
    > {
        if self.validators_times.contains_key(pub_key) && self.validators_times[pub_key].instant()
            >= time.instant() {
            Err(Error::ValidatorTimeIsGreater)
        } else {
            Ok(
                TimeState {
                    validators_times: self.validators_times.insert(pub_key, time),
                    ..self
                },
            )
        }
    }

    /// Moves the consolidated time to the one on which the validators agree, if that is
    /// later.
    pub open spec fn consolidate(self, validators: Seq<PublicKey>) -> TimeState {
        match agreed(self.validators_times, validators) {
            Some(time) => if self.time is Some && self.time->0.instant() >= time.instant() {
                self
            } else {
                TimeState { time: Some(time), ..self }
            },
            None => self,
        }
    }

    /// What the report of a time makes of the state.
    pub open spec fn receive(self, tx: TxTime, validators: Seq<PublicKey>) -> Result<
        TimeState,
        Error,
    > {
        if !validators.contains(tx.pub_key) {
            Err(Error::UnknownSender)
        } else {
            match self.report(tx.pub_key, tx.time) {
                Ok(state) => Ok(state.consolidate(validators)),
                Err(error) => Err(error),
            }
        }
    }
}

/// Tells whether a list holds the reports of some validators, each once, the latest
/// first.
pub open spec fn lists_reports(
    reports: Seq<(PublicKey, DateTime)>,
    times: Map<PublicKey, DateTime>,
    among: Set<PublicKey>,
) -> bool {
    &&& forall|i: int|
        0 <= i < reports.len() ==> among.contains((#[trigger] reports[i]).0)
            && times[reports[i].0] == reports[i].1
    &&& forall|i: int, j: int|
        0 <= i < j < reports.len() ==> (#[trigger] reports[i]).0 != (#[trigger] reports[j]).0
            && reports[i].1.instant() >= reports[j].1.instant()
    &&& forall|key: PublicKey| #[trigger]
        among.contains(key) ==> exists|i: int| row_has(reports, key, i)
}

/// A list of reports has as many rows as there are validators in it, and its rows have
/// the ranks that their positions tell.
pub proof fn positions_are_ranks(
    reports: Seq<(PublicKey, DateTime)>,
    times: Map<PublicKey, DateTime>,
    among: Set<PublicKey>,
)
    requires
        lists_reports(reports, times, among),
    ensures
        among.finite(),
        among.len() == reports.len(),
        forall|i: int|
            0 <= i < reports.len() ==> has_rank(times, among, i as nat, (#[trigger] reports[i]).1),
{
    let keys = reports.map_values(|row: (PublicKey, DateTime)| row.0);
    assert(keys.no_duplicates()) by {
        assert forall|i: int, j: int| 0 <= i < j < keys.len() implies keys[i] != keys[j] by {
            assert(reports[i].0 != reports[j].0);
        }
    }
    keys.unique_seq_to_set();
    assert(keys.to_set() =~= among) by {
        assert forall|key: PublicKey| #[trigger] keys.to_set().contains(key) <==> among.contains(
            key,
        ) by {
            if keys.contains(key) {
                let i = keys.index_of(key);
                assert(among.contains(reports[i].0));
            }
            if among.contains(key) {
                let i = choose|i: int| row_has(reports, key, i);
                assert(keys[i] == key);
            }
        }
    }
    assert forall|i: int| 0 <= i < reports.len() implies has_rank(
        times,
        among,
        i as nat,
        (#[trigger] reports[i]).1,
    ) by {
        let time = reports[i].1;
        assert(among.contains(reports[i].0) && times[reports[i].0] == time);
        let before = keys.take(i);
        before.unique_seq_to_set();
        assert(after(times, among, time).subset_of(before.to_set())) by {
            assert forall|key: PublicKey| #[trigger]
                after(times, among, time).contains(key) implies before.to_set().contains(key) by {
                let j = choose|j: int| row_has(reports, key, j);
                assert(times[reports[j].0] == reports[j].1);
                if i < j {
                    assert(reports[i].1.instant() >= reports[j].1.instant());
                }
                assert(before[j] == key);
            }
        }
        vstd::set_lib::lemma_len_subset(after(times, among, time), before.to_set());
        let upto = keys.take(i + 1);
        upto.unique_seq_to_set();
        assert(upto.to_set().subset_of(at_or_after(times, among, time))) by {
            assert forall|key: PublicKey| #[trigger]
                upto.to_set().contains(key) implies at_or_after(times, among, time).contains(
                key,
            ) by {
                let j = upto.index_of(key);
                assert(upto[j] == reports[j].0);
                assert(times[reports[j].0] == reports[j].1);
                if j < i {
                    assert(reports[j].1.instant() >= reports[i].1.instant());
                }
            }
        }
        vstd::set_lib::lemma_len_subset(upto.to_set(), at_or_after(times, among, time));
    }
}

/// A rank belongs to one time only.
pub proof fn rank_is_of_one_time(
    times: Map<PublicKey, DateTime>,
    among: Set<PublicKey>,
    rank: nat,
    a: DateTime,
    b: DateTime,
)
    requires
        among.finite(),
        has_rank(times, among, rank, a),
        has_rank(times, among, rank, b),
    ensures
        a == b,
{
    if a.instant() < b.instant() {
        assert(at_or_after(times, among, b).subset_of(after(times, among, a)));
        vstd::set_lib::lemma_len_subset(at_or_after(times, among, b), after(times, among, a));
    }
    if b.instant() < a.instant() {
        assert(at_or_after(times, among, a).subset_of(after(times, among, b)));
        vstd::set_lib::lemma_len_subset(at_or_after(times, among, a), after(times, among, b));
    }
}

/// Tells whether a key is among the given ones.
fn is_among(key: &PublicKey, keys: &Vec<PublicKey>) -> (found: bool)
    ensures
        found == keys@.contains(*key),
{
    let mut i: usize = 0;
    while i < keys.len()
        invariant
            i <= keys@.len(),
            forall|j: int| 0 <= j < i ==> keys@[j] != *key,
        decreases keys@.len() - i,
    {
        if keys[i] == *key {
            return true;
        }
        i += 1;
    }
    false
}

/// Position of a new report in a list of reports that has the latest first.
fn position_of(reports: &Vec<(PublicKey, DateTime)>, time: &DateTime) -> (position: usize)
    ensures
        position <= reports@.len(),
        forall|i: int|
            0 <= i < position ==> (#[trigger] reports@[i]).1.instant() >= time.instant(),
        position < reports@.len() ==> reports@[position as int].1.instant() < time.instant(),
{
    let mut position: usize = 0;
    while position < reports.len() && reports[position].1.at_or_after(time)
        invariant
            position <= reports@.len(),
            forall|i: int|
                0 <= i < position ==> (#[trigger] reports@[i]).1.instant() >= time.instant(),
        decreases reports@.len() - position,
    {
        position += 1;
    }
    position
}

/// Keys of the first rows of a table.
spec fn first_keys(rows: Seq<(PublicKey, DateTime)>, count: int) -> Set<PublicKey> {
    Set::new(|key: PublicKey| exists|i: int| i < count && row_has(rows, key, i))
}

/// A list of reports stays one when a report is put at its position.
pub proof fn insert_report(
    before: Seq<(PublicKey, DateTime)>,
    times: Map<PublicKey, DateTime>,
    among: Set<PublicKey>,
    position: int,
    key: PublicKey,
)
    requires
        lists_reports(before, times, among),
        !among.contains(key),
        0 <= position <= before.len(),
        forall|i: int|
            0 <= i < position ==> (#[trigger] before[i]).1.instant() >= times[key].instant(),
        position < before.len() ==> before[position].1.instant() < times[key].instant(),
    ensures
        lists_reports(before.insert(position, (key, times[key])), times, among.insert(key)),
{
    let reports = before.insert(position, (key, times[key]));
    assert forall|i: int| 0 <= i < reports.len() implies among.insert(key).contains(
        (#[trigger] reports[i]).0,
    ) && times[reports[i].0] == reports[i].1 by {
        if i < position {
            assert(among.contains(before[i].0));
        } else if i > position {
            assert(among.contains(before[i - 1].0));
        }
    }
    assert forall|i: int, j: int| 0 <= i < j < reports.len() implies (#[trigger] reports[i]).0 != (
    #[trigger] reports[j]).0 && reports[i].1.instant() >= reports[j].1.instant() by {
        if j < position {
            assert(before[i].0 != before[j].0);
        } else if i < position && j > position {
            assert(before[i].0 != before[j - 1].0);
        } else if i > position {
            assert(before[i - 1].0 != before[j - 1].0);
        } else if i == position {
            assert(among.contains(before[j - 1].0));
            if j - 1 > position {
                assert(before[position].1.instant() >= before[j - 1].1.instant());
            }
        } else {
            assert(among.contains(before[i].0));
        }
    }
    assert forall|other: PublicKey| #[trigger] among.insert(key).contains(other) implies exists|
        i: int,
    | row_has(reports, other, i) by {
        if other == key {
            assert(row_has(reports, other, position));
        } else {
            assert(among.contains(other));
            let i = choose|i: int| row_has(before, other, i);
            if i < position {
                assert(row_has(reports, other, i));
            } else {
                assert(row_has(reports, other, i + 1));
            }
        }
    }
}

/// Lists the reports of the current validators, the latest first.
fn reports_of(schema: &TimeSchema, validators: &Vec<PublicKey>) -> (reports: Vec<
    (PublicKey, DateTime),
>)
    ensures
        lists_reports(
            reports@,
            schema@.validators_times,
            known(schema@.validators_times, validators@),
        ),
{
    let rows = schema.validators_times().iter();
    let ghost times = schema@.validators_times;
    let ghost among = known(times, validators@);
    let mut reports: Vec<(PublicKey, DateTime)> = Vec::new();
    let mut i: usize = 0;
    assert(row_views(rows@) =~= rows@);
    while i < rows.len()
        invariant
            i <= rows@.len(),
            ascending(rows@),
            times == table(rows@),
            among == known(times, validators@),
            lists_reports(reports@, times, among.intersect(first_keys(rows@, i as int))),
        decreases rows@.len() - i,
    {
        let ghost covered = among.intersect(first_keys(rows@, i as int));
        let ghost covers = among.intersect(first_keys(rows@, i + 1));
        let key = rows[i].0;
        let time = rows[i].1;
        proof {
            ascending_rows_are_a_map(rows@, i as int);
            assert forall|j: int| j < i implies !row_has(rows@, key, j) by {
                if row_has(rows@, key, j) {
                    assert(key_lt(rows@[j].0, rows@[i as int].0));
                    key_order_is_total(key, key, key);
                }
            }
            assert forall|other: PublicKey| first_keys(rows@, i + 1).contains(other) <==> (
            #[trigger] first_keys(rows@, i as int).contains(other) || other == key) by {
                assert(row_has(rows@, key, i as int));
                if first_keys(rows@, i + 1).contains(other) {
                    let j = choose|j: int| j < i + 1 && row_has(rows@, other, j);
                }
            }
        }
        if is_among(&key, validators) {
            let position = position_of(&reports, &time);
            proof {
                insert_report(reports@, times, covered, position as int, key);
                assert(covers =~= covered.insert(key));
            }
            reports.insert(position, (key, time));
        } else {
            assert(covers =~= covered);
        }
        i += 1;
    }
    assert(among.intersect(first_keys(rows@, i as int)) =~= among) by {
        assert forall|key: PublicKey| among.contains(key) implies #[trigger] first_keys(
            rows@,
            i as int,
        ).contains(key) by {
            let j = choose|j: int| row_has(rows@, key, j);
            assert(j < i && row_has(rows@, key, j));
        }
    }
    reports
}

impl TxTime {
    /// Key with which the transaction has to be signed: that of the validator.
    pub fn signer(&self) -> (key: &PublicKey)
        ensures
            *key == self.pub_key,
    {
        &self.pub_key
    }

    /// Verifies integrity of the transaction, given whether its signature was found to be
    /// that of the [`signer`](TxTime::signer).
    pub fn verify(&self, signed: bool) -> (correct: bool)
        ensures
            correct == signed,
    {
        signed
    }

    /// Checks that the sender is a validator.
    pub fn check_signed_by_validator(&self, validators: &Vec<PublicKey>) -> (result: Result<
        (),
        Error,
    >)
        ensures
            result == (if validators@.contains(self.pub_key) {
                Ok::<(), Error>(())
            } else {
                Err(Error::UnknownSender)
            }),
    {
        if is_among(&self.pub_key, validators) {
            Ok(())
        } else {
            Err(Error::UnknownSender)
        }
    }

    /// Takes down the time of the validator.
    pub fn update_validator_time(&self, schema: &mut TimeSchema) -> (result: Result<(), Error>)
        ensures
            match old(schema)@.report(self.pub_key, self.time) {
                Ok(next) => result is Ok && final(schema)@ == next,
                Err(error) => result == Err::<(), Error>(error) && final(schema)@ == old(schema)@,
            },
    {
        // The validator time in the storage should be less than in the transaction.
        if let Some(time) = schema.validators_times().get(&self.pub_key) {
            if time.at_or_after(&self.time) {
                return Err(Error::ValidatorTimeIsGreater);
            }
        }
        // Write the time for the validator.

        schema.validators_times_mut().put(self.pub_key, self.time);
        Ok(())
    }

    /// Moves the consolidated time to the one on which the validators agree, if that is
    /// later.
    pub fn update_consolidated_time(validators: &Vec<PublicKey>, schema: &mut TimeSchema)
        requires
            validators@.len() > 0,
        ensures
            final(schema)@ == old(schema)@.consolidate(validators@),
    {
        let ghost times = schema@.validators_times;
        let ghost among = known(times, validators@);
        // All known times for the validators, ordered from highest to lowest.
        let reports = reports_of(schema, validators);
        // The largest number of Byzantine nodes.
        let byzantine: usize = (validators.len() - 1) / 3;
        proof {
            positions_are_ranks(reports@, times, among);
        }
        if reports.len() <= 2 * byzantine {
            return;
        }
        let selected = reports[byzantine].1;
        proof {
            let chosen = agreed(times, validators@)->0;
            assert(has_rank(times, among, byzantine as nat, selected));
            rank_is_of_one_time(times, among, byzantine as nat, selected, chosen);
        }
        // The selected time should be greater than the time in the storage.
        if let Some(current) = schema.time().get() {
            if current.at_or_after(&selected) {
                return;
            }
        }
        // Change the time in the storage.

        schema.time_mut().set(selected);
    }

    /// Takes down the time of a validator and consolidates the times of all of them.
    pub fn execute(&self, validators: &Vec<PublicKey>, schema: &mut TimeSchema) -> (result: Result<
        (),
        Error,
    >)
        ensures
            match old(schema)@.receive(*self, validators@) {
                Ok(next) => result is Ok && final(schema)@ == next,
                Err(error) => result == Err::<(), Error>(error) && final(schema)@ == old(schema)@,
            },
    {
        if let Err(error) = self.check_signed_by_validator(validators) {
            return Err(error);
        }
        if let Err(error) = self.update_validator_time(schema) {
            return Err(error);
        }
        Self::update_consolidated_time(validators, schema);
        Ok(())
    }
}

} // verus!
