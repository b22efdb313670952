//! The `action` query parameter: a two-variant value parsed from the
//! request before any business logic runs. A value outside the
//! recognized set is rejected with a client error, never defaulted.

use vstd::prelude::*;
use crate::error::RelayError;
use crate::text::str_eq;

verus! {

/// The event category a caller may ask about.
#[derive(Clone, Copy, Debug, PartialEq, Eq, Structural)]
pub enum Action {
    Login,
    LoginFailed,
}

/// The recognized spellings of the `action` query parameter.
pub open spec fn is_recognized_action(s: Seq<char>) -> bool {
    s == "login"@ || s == "login_failed"@
}

impl Action {
    /// How this action is spelled in a query string, as a sequence of
    /// characters.
    pub open spec fn spec_query_str(&self) -> Seq<char> {
        match self {
            Action::Login => "login"@,
            Action::LoginFailed => "login_failed"@,
        }
    }

    /// The spelling of this action, forwarded verbatim into the
    /// upstream query string.
    pub fn query_str(&self) -> (s: &'static str)
        ensures
            s@ == self.spec_query_str(),
    {
        match self {
            Action::Login => "login",
            Action::LoginFailed => "login_failed",
        }
    }
}

/// Validating parse of the `action` query parameter. Returns the tagged
/// value exactly for the two recognized spellings and rejects everything
/// else with `InvalidAction`.
pub fn parse_action(raw: &str) -> (r: Result<Action, RelayError>)
    ensures
        r is Ok <==> is_recognized_action(raw@),
        r is Ok ==> r->Ok_0.spec_query_str() == raw@,
        r is Err ==> r->Err_0 == RelayError::InvalidAction,
{
    if str_eq(raw, "login") {
        Ok(Action::Login)
    } else if str_eq(raw, "login_failed") {
        Ok(Action::LoginFailed)
    } else {
        Err(RelayError::InvalidAction)
    }
}

} // verus!
