//! Dispatch over the relay's served paths.

use vstd::prelude::*;
use vstd::string::StrSliceExecFns;
use crate::text::str_eq;

verus! {

/// Which handler a request path selects.
#[derive(Clone, Copy, Debug, PartialEq, Eq, Structural)]
pub enum Route {
    UserCount,
    EventsPerMonth,
    Unknown,
}

/// The path served by the user-count handler.
pub open spec fn spec_users_path() -> Seq<char> {
    "/api/v3/core/users"@
}

/// The path served by the events handler.
pub open spec fn spec_events_path() -> Seq<char> {
    "/api/v3/events/events/per_month"@
}

/// Maps a request path to the handler that serves it; anything but the
/// two served paths is unknown.
pub fn route_path(path: &str) -> (r: Route)
    ensures
        r == Route::UserCount <==> path@ == spec_users_path(),
        r == Route::EventsPerMonth <==> path@ == spec_events_path(),
        r == Route::Unknown <==> (path@ != spec_users_path() && path@ != spec_events_path()),
{
    proof {
        reveal_strlit("/api/v3/core/users");
        reveal_strlit("/api/v3/events/events/per_month");
        assert(spec_users_path().len() == 18);
        assert(spec_events_path().len() == 31);
    }
    if str_eq(path, "/api/v3/core/users") {
        Route::UserCount
    } else if str_eq(path, "/api/v3/events/events/per_month") {
        Route::EventsPerMonth
    } else {
        Route::Unknown
    }
}

/// Extracts the value of the `action` parameter from a request query
/// string of the form `action=<value>`, the only query the events
/// endpoint takes. Returns the raw value, unvalidated; any other query
/// carries no action.
pub fn action_param<'a>(query: &'a str) -> (r: Option<&'a str>)
    ensures
        r is Some <==> (query@.len() >= 7 && query@.subrange(0, 7) == "action="@),
        r is Some ==> r->0@ == query@.subrange(7, query@.len() as int),
{
    let len = query.unicode_len();
    if len < 7 {
        return None;
    }
    let head = query.substring_char(0, 7);
    if str_eq(head, "action=") {
        Some(query.substring_char(7, len))
    } else {
        None
    }
}

} // verus!
