//! What the time service answers to requests.

use vstd::prelude::*;

use super::clock::DateTime;
use super::schema::TimeSchema;
use crate::crypto::{key_lt, PublicKey};
use crate::routing::{Method, Route, RouteView};
use crate::storage::{ascending, row_views, table, tables_hold_their_rows};

verus! {

/// Structure for saving public key of the validator and last known local time.
#[derive(Clone, Copy, Debug, PartialEq, Eq)]
pub struct ValidatorTime {
    /// Public key of the validator.
    pub public_key: PublicKey,
    /// Time of the validator.
    pub time: Option<DateTime>,
}

/// What a route of the service leads to.
#[derive(Clone, Copy, Debug, PartialEq, Eq, Structural)]
pub enum Endpoint {
    GetCurrentTime,
    GetCurrentValidatorsTimes,
    GetAllValidatorsTimes,
}

/// Tells whether a list has all known times, in the order of the validators' keys.
pub open spec fn lists_all(times: Map<PublicKey, DateTime>, list: Seq<ValidatorTime>) -> bool {
    exists|rows: Seq<(PublicKey, DateTime)>| #[trigger]
        ascending(rows) && table(rows) == times && list == rows.map_values(
            |row: (PublicKey, DateTime)|
                ValidatorTime { public_key: row.0, time: Some(row.1) },
        )
}

/// Endpoints of the time service.
pub struct TimeApi;

impl TimeApi {
    /// Endpoint for getting value of the time that is saved in storage.
    pub fn get_current_time(schema: &TimeSchema) -> (time: Option<DateTime>)
        ensures
            time == schema@.time,
    {
        schema.time().get()
    }

    /// Endpoint for getting time values for all validators for which time is known.
    pub fn get_all_validators_times(schema: &TimeSchema) -> (times: Vec<ValidatorTime>)
        ensures
            lists_all(schema@.validators_times, times@),
    {
        let rows = schema.validators_times().iter();
        assert(row_views(rows@) =~= rows@);
        let mut times: Vec<ValidatorTime> = Vec::new();
        let mut i: usize = 0;
        while i < rows.len()
            invariant
                i <= rows@.len(),
                times@ == rows@.take(i as int).map_values(
                    |row: (PublicKey, DateTime)|
                        ValidatorTime { public_key: row.0, time: Some(row.1) },
                ),
            decreases rows@.len() - i,
        {
            times.push(ValidatorTime { public_key: rows[i].0, time: Some(rows[i].1) });
            i += 1;
        }
        assert(rows@.take(i as int) =~= rows@);
        assert(ascending(rows@));
        times
    }

    /// Endpoint for getting time values for current validators, `None` for those whose
    /// time is unknown.
    pub fn get_current_validators_times(schema: &TimeSchema, validators: &Vec<PublicKey>) -> (times:
        Vec<ValidatorTime>)
        ensures
            times@ == validators@.map_values(
                |key: PublicKey|
                    ValidatorTime {
                        public_key: key,
                        time: if schema@.validators_times.contains_key(key) {
                            Some(schema@.validators_times[key])
                        } else {
                            None
                        },
                    },
            ),
    {
        let mut times: Vec<ValidatorTime> = Vec::new();
        let mut i: usize = 0;
        while i < validators.len()
            invariant
                i <= validators@.len(),
                times@ == validators@.take(i as int).map_values(
                    |key: PublicKey|
                        ValidatorTime {
                            public_key: key,
                            time: if schema@.validators_times.contains_key(key) {
                                Some(schema@.validators_times[key])
                            } else {
                                None
                            },
                        },
                ),
            decreases validators@.len() - i,
        {
            let key = validators[i];
            let time = match schema.validators_times().get(&key) {
                Some(time) => Some(*time),
                None => None,
            };
            times.push(ValidatorTime { public_key: key, time });
            i += 1;
        }
        assert(validators@.take(i as int) =~= validators@);
        times
    }

    /// Routes that lead to the endpoints for the operators of the node.
    pub fn wire_private() -> (routes: Vec<Route<Endpoint>>)
        ensures
            routes@.map_values(|route: Route<Endpoint>| route@) == seq![
                RouteView {
                    method: Method::Get,
                    pattern: "v1/validators_times"@,
                    endpoint: Endpoint::GetCurrentValidatorsTimes,
                    name: "get_current_validators_times"@,
                },
                RouteView {
                    method: Method::Get,
                    pattern: "v1/validators_times/all"@,
                    endpoint: Endpoint::GetAllValidatorsTimes,
                    name: "get_all_validators_times"@,
                },
            ],
    {
        let mut routes: Vec<Route<Endpoint>> = Vec::new();
        routes.push(
            Route {
                method: Method::Get,
                pattern: "v1/validators_times",
                endpoint: Endpoint::GetCurrentValidatorsTimes,
                name: "get_current_validators_times",
            },
        );
        routes.push(
            Route {
                method: Method::Get,
                pattern: "v1/validators_times/all",
                endpoint: Endpoint::GetAllValidatorsTimes,
                name: "get_all_validators_times",
            },
        );
        routes
    }

    /// Routes that lead to the endpoints for everybody.
    pub fn wire() -> (routes: Vec<Route<Endpoint>>)
        ensures
            routes@.map_values(|route: Route<Endpoint>| route@) == seq![
                RouteView {
                    method: Method::Get,
                    pattern: "v1/current_time"@,
                    endpoint: Endpoint::GetCurrentTime,
                    name: "get_current_time"@,
                },
            ],
    {
        let mut routes: Vec<Route<Endpoint>> = Vec::new();
        routes.push(
            Route {
                method: Method::Get,
                pattern: "v1/current_time",
                endpoint: Endpoint::GetCurrentTime,
                name: "get_current_time",
            },
        );
        routes
    }
}

/// The list of all known times has the time of each validator once, and those of smaller keys
/// come first.
pub proof fn all_known_times_are_listed(
    times: Map<PublicKey, DateTime>,
    list: Seq<ValidatorTime>,
    key: PublicKey,
    i: int,
    j: int,
)
    requires
        lists_all(times, list),
    ensures
        0 <= i < list.len() ==> {
            &&& times.contains_key(list[i].public_key)
            &&& list[i].time == Some(times[list[i].public_key])
        },
        0 <= i < j < list.len() ==> key_lt(list[i].public_key, list[j].public_key),
        times.contains_key(key) ==> exists|k: int|
            0 <= k < list.len() && (#[trigger] list[k]).public_key == key,
{
    let rows = choose|rows: Seq<(PublicKey, DateTime)>| #[trigger]
        ascending(rows) && table(rows) == times && list == rows.map_values(
            |row: (PublicKey, DateTime)|
                ValidatorTime { public_key: row.0, time: Some(row.1) },
        );
    tables_hold_their_rows(rows, key, i, j);
    if times.contains_key(key) {
        let k = choose|k: int| 0 <= k < rows.len() && (#[trigger] rows[k]).0 == key;
        assert(list[k].public_key == key);
    }
}

} // verus!
