//! What holds of the time service whatever is reported to it.

use vstd::prelude::*;

use super::clock::DateTime;
use super::error::Error;
use super::schema::TimeState;
use super::transactions::{
    after, agreed, at_or_after, has_rank, insert_report, known, lists_reports,
    max_byzantine_nodes, positions_are_ranks, rank_is_of_one_time, TxTime,
};
use crate::crypto::PublicKey;

verus! {

/// In a list that has the latest report first there is a position for any other one.
proof fn position_exists(reports: Seq<(PublicKey, DateTime)>, time: DateTime) -> (position: int)
    requires
        forall|i: int, j: int|
            0 <= i < j < reports.len() ==> (#[trigger] reports[i]).1.instant() >= (
            #[trigger] reports[j]).1.instant(),
    ensures
        0 <= position <= reports.len(),
        forall|i: int|
            0 <= i < position ==> (#[trigger] reports[i]).1.instant() >= time.instant(),
        position < reports.len() ==> reports[position].1.instant() < time.instant(),
    decreases reports.len(),
{
    if reports.len() == 0 {
        0
    } else if reports.last().1.instant() >= time.instant() {
        assert forall|i: int| 0 <= i < reports.len() implies (
        #[trigger] reports[i]).1.instant() >= time.instant() by {
            if i < reports.len() - 1 {
                assert(reports[i].1.instant() >= reports[reports.len() - 1].1.instant());
            }
        }
        reports.len() as int
    } else {
        let rest = reports.drop_last();
        assert forall|i: int, j: int| 0 <= i < j < rest.len() implies (
        #[trigger] rest[i]).1.instant() >= (#[trigger] rest[j]).1.instant() by {
            assert(reports[i].1.instant() >= reports[j].1.instant());
        }
        let position = position_exists(rest, time);
        assert forall|i: int| 0 <= i < position implies (#[trigger] reports[i]).1.instant()
            >= time.instant() by {
            assert(rest[i] == reports[i]);
        }
        position
    }
}

/// The reports of finitely many validators can be listed.
proof fn reports_exist(times: Map<PublicKey, DateTime>, among: Set<PublicKey>) -> (reports: Seq<
    (PublicKey, DateTime),
>)
    requires
        among.finite(),
    ensures
        lists_reports(reports, times, among),
    decreases among.len(),
{
    if among.len() == 0 {
        assert(among =~= Set::empty());
        Seq::empty()
    } else {
        let key = among.choose();
        let rest = among.remove(key);
        let reports = reports_exist(times, rest);
        let position = position_exists(reports, times[key]);
        insert_report(reports, times, rest, position, key);
        assert(rest.insert(key) =~= among);
        reports.insert(position, (key, times[key]))
    }
}

/// Finitely many of the current validators' times are known.
proof fn known_are_finite(times: Map<PublicKey, DateTime>, validators: Seq<PublicKey>)
    ensures
        known(times, validators).finite(),
{
    vstd::seq_lib::seq_to_set_is_finite(validators);
    assert(known(times, validators).subset_of(validators.to_set()));
    vstd::set_lib::lemma_len_subset(known(times, validators), validators.to_set());
}

/// The time on which validators agree is one that a validator has reported, and among
/// the reported ones it is the latest but for as many as there may be Byzantine nodes.
pub proof fn agreed_time_has_its_rank(
    times: Map<PublicKey, DateTime>,
    validators: Seq<PublicKey>,
    time: DateTime,
)
    requires
        known(times, validators).len() > 2 * max_byzantine_nodes(validators.len()),
    ensures
        agreed(times, validators) == Some(time) <==> has_rank(
            times,
            known(times, validators),
            max_byzantine_nodes(validators.len()),
            time,
        ),
{
    let among = known(times, validators);
    let byzantine = max_byzantine_nodes(validators.len());
    known_are_finite(times, validators);
    let reports = reports_exist(times, among);
    positions_are_ranks(reports, times, among);
    assert(has_rank(times, among, byzantine, reports[byzantine as int].1));
    let chosen = agreed(times, validators)->0;
    if has_rank(times, among, byzantine, time) {
        rank_is_of_one_time(times, among, byzantine, time, chosen);
    }
}

/// As long as there are no more dishonest validators than there may be Byzantine nodes,
/// the time on which the validators agree is not earlier than what some honest validator
/// has reported, and not later than what some honest validator has reported.
pub proof fn agreed_time_is_among_honest_ones(
    times: Map<PublicKey, DateTime>,
    validators: Seq<PublicKey>,
    dishonest: Set<PublicKey>,
)
    requires
        agreed(times, validators) is Some,
        dishonest.finite(),
        dishonest.len() <= max_byzantine_nodes(validators.len()),
    ensures
        exists|key: PublicKey|
            known(times, validators).contains(key) && !dishonest.contains(key)
                && #[trigger] times[key].instant() <= agreed(times, validators)->0.instant(),
        exists|key: PublicKey|
            known(times, validators).contains(key) && !dishonest.contains(key)
                && #[trigger] times[key].instant() >= agreed(times, validators)->0.instant(),
{
    let among = known(times, validators);
    let byzantine = max_byzantine_nodes(validators.len());
    let time = agreed(times, validators)->0;
    agreed_time_has_its_rank(times, validators, time);
    known_are_finite(times, validators);
    let late = at_or_after(times, among, time);
    if late.subset_of(dishonest) {
        vstd::set_lib::lemma_len_subset(late, dishonest);
    }
    let above = choose|key: PublicKey| late.contains(key) && !dishonest.contains(key);
    assert(times[above].instant() >= time.instant());
    let later = after(times, among, time);
    let early = among.difference(later);
    assert(early.disjoint(later));
    assert(early.union(later) =~= among);
    vstd::set_lib::lemma_set_disjoint_lens(early, later);
    if early.subset_of(dishonest) {
        vstd::set_lib::lemma_len_subset(early, dishonest);
    }
    let below = choose|key: PublicKey| early.contains(key) && !dishonest.contains(key);
    assert(times[below].instant() <= time.instant());
}

/// Only the times of current validators count: where two tables have the same ones, the
/// validators agree on the same time, whatever else is in the tables.
pub proof fn times_of_others_do_not_count(
    times: Map<PublicKey, DateTime>,
    others: Map<PublicKey, DateTime>,
    validators: Seq<PublicKey>,
)
    requires
        forall|key: PublicKey| #[trigger]
            validators.contains(key) ==> {
                &&& times.contains_key(key) == others.contains_key(key)
                &&& times.contains_key(key) ==> times[key] == others[key]
            },
    ensures
        agreed(others, validators) == agreed(times, validators),
{
    let among = known(times, validators);
    assert(known(others, validators) =~= among);
    if among.len() > 2 * max_byzantine_nodes(validators.len()) {
        let chosen = agreed(times, validators)->0;
        let byzantine = max_byzantine_nodes(validators.len());
        agreed_time_has_its_rank(times, validators, chosen);
        assert(after(others, among, chosen) =~= after(times, among, chosen));
        assert(at_or_after(others, among, chosen) =~= at_or_after(times, among, chosen));
        let reporter = choose|reporter: PublicKey|
            among.contains(reporter) && #[trigger] times[reporter] == chosen;
        assert(others[reporter] == chosen);
        assert(has_rank(others, among, byzantine, chosen));
        agreed_time_has_its_rank(others, validators, chosen);
    }
}

/// The consolidated time never goes back and never is lost: a report leaves it as it
/// is or moves it forward.
pub proof fn time_moves_forward(state: TimeState, tx: TxTime, validators: Seq<PublicKey>)
    requires
        state.receive(tx, validators) is Ok,
        state.time is Some,
    ensures
        state.receive(tx, validators)->Ok_0.time is Some,
        state.receive(tx, validators)->Ok_0.time != state.time ==> state.receive(
            tx,
            validators,
        )->Ok_0.time->0.instant() > state.time->0.instant(),
{
}

/// The time of a validator never goes back and never is lost: a report moves the
/// sender's forward and leaves those of all others as they are.
pub proof fn validator_time_moves_forward(
    state: TimeState,
    tx: TxTime,
    validators: Seq<PublicKey>,
    key: PublicKey,
)
    requires
        state.receive(tx, validators) is Ok,
    ensures
        state.receive(tx, validators)->Ok_0.validators_times.contains_key(tx.pub_key),
        state.receive(tx, validators)->Ok_0.validators_times[tx.pub_key] == tx.time,
        state.validators_times.contains_key(tx.pub_key)
            ==> state.validators_times[tx.pub_key].instant() < tx.time.instant(),
        key != tx.pub_key ==> {
            let next = state.receive(tx, validators)->Ok_0.validators_times;
            &&& next.contains_key(key) == state.validators_times.contains_key(key)
            &&& state.validators_times.contains_key(key) ==> next[key]
                == state.validators_times[key]
        },
{
}

/// State after some more reports, each with the validators at its time. Those that are
/// refused leave it as it is.
pub open spec fn later_state(
    state: TimeState,
    reports: Seq<(TxTime, Seq<PublicKey>)>,
) -> TimeState
    decreases reports.len(),
{
    if reports.len() == 0 {
        state
    } else {
        let before = later_state(state, reports.drop_last());
        match before.receive(reports.last().0, reports.last().1) {
            Ok(next) => next,
            Err(_) => before,
        }
    }
}

/// Whatever is reported, no time is lost and none goes back, neither that of a validator
/// nor the consolidated one.
pub proof fn times_never_go_back(
    state: TimeState,
    reports: Seq<(TxTime, Seq<PublicKey>)>,
    key: PublicKey,
)
    ensures
        state.validators_times.contains_key(key) ==> {
            let later = later_state(state, reports).validators_times;
            &&& later.contains_key(key)
            &&& later[key].instant() >= state.validators_times[key].instant()
        },
        state.time is Some ==> {
            let later = later_state(state, reports).time;
            &&& later is Some
            &&& later->0.instant() >= state.time->0.instant()
        },
    decreases reports.len(),
{
    if reports.len() > 0 {
        times_never_go_back(state, reports.drop_last(), key);
    }
}

/// The same report is not taken twice, whatever was reported in between and whoever the
/// validators are by then.
pub proof fn reports_are_taken_once(
    state: TimeState,
    tx: TxTime,
    validators: Seq<PublicKey>,
    reports: Seq<(TxTime, Seq<PublicKey>)>,
    validators_then: Seq<PublicKey>,
)
    requires
        state.receive(tx, validators) is Ok,
    ensures
        later_state(state.receive(tx, validators)->Ok_0, reports).receive(tx, validators_then)
            == Err::<TimeState, Error>(
            if validators_then.contains(tx.pub_key) {
                Error::ValidatorTimeIsGreater
            } else {
                Error::UnknownSender
            },
        ),
{
    times_never_go_back(state.receive(tx, validators)->Ok_0, reports, tx.pub_key);
}

/// As long as the times of too few validators are known, there is no agreement, and the
/// consolidated time stays as it is.
pub proof fn too_few_times_change_nothing(state: TimeState, validators: Seq<PublicKey>)
    requires
        known(state.validators_times, validators).len() <= 2 * max_byzantine_nodes(
            validators.len(),
        ),
    ensures
        state.consolidate(validators) == state,
{
}

/// Where there is one validator alone, the consolidated time is what they report, if it
/// is later than the one before.
pub proof fn lone_validator_sets_the_time(state: TimeState, tx: TxTime)
    requires
        state.receive(tx, seq![tx.pub_key]) is Ok,
    ensures
        state.receive(tx, seq![tx.pub_key])->Ok_0.time == (if state.time is Some
            && state.time->0.instant() >= tx.time.instant() {
            state.time
        } else {
            Some(tx.time)
        }),
{
    let validators = seq![tx.pub_key];
    let times = state.validators_times.insert(tx.pub_key, tx.time);
    let among = known(times, validators);
    assert(validators.contains(tx.pub_key)) by {
        assert(validators[0] == tx.pub_key);
    }
    let alone = Set::<PublicKey>::empty().insert(tx.pub_key);
    assert(among =~= alone);
    assert(alone.len() == 1);
    assert(after(times, among, tx.time) =~= Set::empty());
    assert(at_or_after(times, among, tx.time) =~= alone);
    assert(among.contains(tx.pub_key) && times[tx.pub_key] == tx.time);
    assert(has_rank(times, among, 0, tx.time));
    agreed_time_has_its_rank(times, validators, tx.time);
}

} // verus!
