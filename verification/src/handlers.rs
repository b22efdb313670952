//! The decision step of each request handler.
//!
//! A handler runs in two halves. The unverified I/O layer performs the
//! outbound HTTP exchange planned by `crate::request` and reports its
//! outcome as plain values: the parsed payload on success, or which way
//! it failed. The functions here take that outcome and decide the
//! response, for every possible outcome — so an upstream failure always
//! becomes an error response at the request boundary, never a crash.

use vstd::prelude::*;
use crate::error::RelayError;
use crate::error::UpstreamFailure;
use crate::error::spec_error_from_upstream;
use crate::error::error_from_upstream;
use crate::events::EventPoint;
use crate::events::aggregate_events;
use crate::events::sum_in_window;
use crate::users::Users;
use crate::users::users_from_count;

verus! {

/// Decides the user-count response from the upstream outcome: a
/// successfully fetched count is passed through unchanged; a failure
/// becomes the matching error response.
pub fn user_count_response(outcome: Result<u64, UpstreamFailure>) -> (r: Result<
    Users,
    RelayError,
>)
    ensures
        r is Ok <==> outcome is Ok,
        outcome is Ok ==> r->Ok_0.pagination.count == outcome->Ok_0,
        outcome is Err ==> r->Err_0 == spec_error_from_upstream(outcome->Err_0),
{
    match outcome {
        Ok(count) => Ok(users_from_count(count)),
        Err(f) => Err(error_from_upstream(f)),
    }
}

/// Decides the events response from the upstream outcome: successfully
/// fetched points are aggregated over the trailing window ending at
/// `now`; a failure becomes the matching error response. A windowed sum
/// too large for the count type means the upstream data was out of any
/// sane range and is reported as malformed.
pub fn events_response(outcome: Result<Vec<EventPoint>, UpstreamFailure>, now: i64) -> (r: Result<
    Vec<EventPoint>,
    RelayError,
>)
    ensures
        r is Ok <==> (outcome is Ok && sum_in_window(outcome->Ok_0@, now as int) <= u128::MAX),
        r is Ok ==> r->Ok_0@.len() == 1,
        r is Ok ==> r->Ok_0@[0] == (EventPoint {
            x_cord: now,
            y_cord: sum_in_window(outcome->Ok_0@, now as int) as u128,
        }),
        outcome is Err ==> r->Err_0 == spec_error_from_upstream(outcome->Err_0),
        outcome is Ok && sum_in_window(outcome->Ok_0@, now as int) > u128::MAX ==> r->Err_0
            == RelayError::UpstreamMalformed,
{
    match outcome {
        Ok(points) => match aggregate_events(&points, now) {
            Some(aggregated) => Ok(aggregated),
            None => Err(RelayError::UpstreamMalformed),
        },
        Err(f) => Err(error_from_upstream(f)),
    }
}

} // verus!
