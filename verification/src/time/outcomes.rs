//! What a report comes to in the time service, table by table and field by field.

use vstd::prelude::*;

use super::clock::DateTime;
use super::error::Error;
use super::laws::agreed_time_has_its_rank;
use super::schema::TimeState;
use super::transactions::{
    after, agreed, at_or_after, has_rank, known, max_byzantine_nodes, TxTime,
};
use crate::crypto::PublicKey;

verus! {

/// The largest number of Byzantine nodes is the largest one of which the validators are more
/// than three times as many.
pub proof fn byzantine_nodes_are_less_than_a_third(validators: nat)
    requires
        validators > 0,
    ensures
        3 * max_byzantine_nodes(validators) < validators,
        validators <= 3 * max_byzantine_nodes(validators) + 3,
{
}

/// With `byzantine` the number that the validators can bear, the consolidated time stays as it
/// is as long as no more than twice as many of them have reported. After that there is a
/// reported time that at most `byzantine` of them are later than, and more than `byzantine` of
/// them not earlier than. The consolidated time becomes that one, unless it is as late already.
pub proof fn consolidation_takes_the_time_of_its_rank(
    state: TimeState,
    validators: Seq<PublicKey>,
    byzantine: nat,
)
    requires
        3 * byzantine < validators.len() <= 3 * byzantine + 3,
    ensures
        ({
            let times = state.validators_times;
            let next = state.consolidate(validators);
            let reporters = Set::new(
                |key: PublicKey| times.contains_key(key) && validators.contains(key),
            );
            &&& next.validators_times == times
            &&& reporters.finite()
            &&& reporters.len() <= 2 * byzantine ==> next.time == state.time
            &&& reporters.len() > 2 * byzantine ==> exists|reporter: PublicKey| #[trigger]
                reporters.contains(reporter) && {
                    let time = times[reporter];
                    let later = reporters.filter(
                        |key: PublicKey|
                            times[key].secs > time.secs || (times[key].secs == time.secs
                                && times[key].nanos > time.nanos),
                    );
                    let not_earlier = reporters.filter(
                        |key: PublicKey|
                            times[key].secs > time.secs || (times[key].secs == time.secs
                                && times[key].nanos >= time.nanos),
                    );
                    let forward = state.time is None || time.secs > state.time->0.secs || (
                    time.secs == state.time->0.secs && time.nanos > state.time->0.nanos);
                    &&& later.len() <= byzantine
                    &&& not_earlier.len() > byzantine
                    &&& forward ==> next.time == Some(time)
                    &&& !forward ==> next.time == state.time
                }
        }),
{
    let times = state.validators_times;
    let next = state.consolidate(validators);
    let reporters = Set::new(
        |key: PublicKey| times.contains_key(key) && validators.contains(key),
    );
    assert(reporters =~= known(times, validators));
    byzantine_nodes_are_less_than_a_third(validators.len());
    assert(byzantine == max_byzantine_nodes(validators.len()));
    assert(reporters.finite()) by {
        vstd::seq_lib::seq_to_set_is_finite(validators);
        assert(reporters.subset_of(validators.to_set()));
        vstd::set_lib::lemma_len_subset(reporters, validators.to_set());
    }
    if reporters.len() > 2 * byzantine {
        let time = agreed(times, validators)->0;
        agreed_time_has_its_rank(times, validators, time);
        assert(has_rank(times, reporters, byzantine, time));
        let reporter = choose|key: PublicKey|
            reporters.contains(key) && #[trigger] times[key] == time;
        let later = reporters.filter(
            |key: PublicKey|
                times[key].secs > time.secs || (times[key].secs == time.secs
                    && times[key].nanos > time.nanos),
        );
        let not_earlier = reporters.filter(
            |key: PublicKey|
                times[key].secs > time.secs || (times[key].secs == time.secs
                    && times[key].nanos >= time.nanos),
        );
        assert(later =~= after(times, reporters, time));
        assert(not_earlier =~= at_or_after(times, reporters, time));
        assert(reporters.contains(reporter));
    }
}

/// A report is refused where its sender is no current validator, else where the time that is
/// stored for the sender is as late already, and nowhere else. Otherwise its time is stored for
/// the sender, the times of all others stay, and the times are consolidated.
pub proof fn reports_are_taken_when_due(
    state: TimeState,
    tx: TxTime,
    validators: Seq<PublicKey>,
    other: PublicKey,
)
    ensures
        ({
            let stored = state.validators_times[tx.pub_key];
            let earlier = state.validators_times.contains_key(tx.pub_key) ==> stored.secs
                < tx.time.secs || (stored.secs == tx.time.secs && stored.nanos < tx.time.nanos);
            match state.receive(tx, validators) {
                Ok(next) => {
                    let times = state.validators_times.insert(tx.pub_key, tx.time);
                    &&& validators.contains(tx.pub_key)
                    &&& earlier
                    &&& next.validators_times.contains_key(tx.pub_key)
                    &&& next.validators_times[tx.pub_key] == tx.time
                    &&& other != tx.pub_key ==> {
                        &&& next.validators_times.contains_key(other)
                            == state.validators_times.contains_key(other)
                        &&& next.validators_times[other] == state.validators_times[other]
                    }
                    &&& next == (TimeState {
                        validators_times: times,
                        time: state.time,
                    }).consolidate(validators)
                },
                Err(error) => {
                    ||| !validators.contains(tx.pub_key) && error == Error::UnknownSender
                    ||| validators.contains(tx.pub_key) && !earlier && error
                        == Error::ValidatorTimeIsGreater
                },
            }
        }),
{
}

/// Taking down a time is refused just where the stored one is as late already. Otherwise the
/// time is stored, and the consolidated one stays as it is.
pub proof fn times_are_taken_down_when_later(
    state: TimeState,
    pub_key: PublicKey,
    time: DateTime,
    other: PublicKey,
)
    ensures
        ({
            let stored = state.validators_times[pub_key];
            let earlier = state.validators_times.contains_key(pub_key) ==> stored.secs
                < time.secs || (stored.secs == time.secs && stored.nanos < time.nanos);
            match state.report(pub_key, time) {
                Ok(next) => {
                    &&& earlier
                    &&& next.time == state.time
                    &&& next.validators_times.contains_key(pub_key)
                    &&& next.validators_times[pub_key] == time
                    &&& other != pub_key ==> {
                        &&& next.validators_times.contains_key(other)
                            == state.validators_times.contains_key(other)
                        &&& next.validators_times[other] == state.validators_times[other]
                    }
                },
                Err(error) => !earlier && error == Error::ValidatorTimeIsGreater,
            }
        }),
{
}

} // verus!
