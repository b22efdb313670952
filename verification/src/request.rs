//! Building the outbound requests: the exact upstream URL and the
//! bearer authorization header, stated character by character.
//!
//! The unverified I/O layer performs the HTTP exchange described by an
//! `OutboundRequest`; everything that determines its contents is
//! verified here.

use vstd::prelude::*;
use vstd::string::StringExecFns;
use crate::action::Action;
use crate::action::is_recognized_action;
use crate::action::parse_action;
use crate::config::Config;
use crate::error::RelayError;

verus! {

/// One outbound HTTP GET, fully determined: the URL to fetch and the
/// token for its `Authorization: Bearer` header.
pub struct OutboundRequest {
    pub url: String,
    pub bearer_token: String,
}

/// URL of the upstream user-count endpoint.
pub open spec fn spec_users_url(base_url: Seq<char>) -> Seq<char> {
    base_url + "api/v3/core/users/"@
}

/// URL of the upstream per-month events endpoint for a given action.
pub open spec fn spec_events_url(base_url: Seq<char>, action: Seq<char>) -> Seq<char> {
    base_url + "api/v3/events/events/per_month/?action="@ + action + "&query={}"@
}

/// The value of the `Authorization` header for a given API key.
pub open spec fn spec_auth_header(api_key: Seq<char>) -> Seq<char> {
    "Bearer "@ + api_key
}

/// Renders the authorization header value `Bearer {api_key}`.
pub fn auth_header_value(api_key: &str) -> (h: String)
    ensures
        h@ == spec_auth_header(api_key@),
{
    let mut h = String::from_str("Bearer ");
    h.append(api_key);
    h
}

/// The request that the user-count handler sends upstream.
pub fn users_request(config: &Config) -> (r: OutboundRequest)
    ensures
        r.url@ == spec_users_url(config.base_url@),
        r.bearer_token@ == config.api_key@,
{
    let mut url = config.base_url.clone();
    url.append("api/v3/core/users/");
    OutboundRequest { url, bearer_token: config.api_key.clone() }
}

/// The request that the events handler sends upstream for a validated
/// action.
pub fn events_request(config: &Config, action: &Action) -> (r: OutboundRequest)
    ensures
        r.url@ == spec_events_url(config.base_url@, action.spec_query_str()),
        r.bearer_token@ == config.api_key@,
{
    let mut url = config.base_url.clone();
    url.append("api/v3/events/events/per_month/?action=");
    url.append(action.query_str());
    url.append("&query={}");
    OutboundRequest { url, bearer_token: config.api_key.clone() }
}

/// Validates the raw `action` parameter and, only when it is
/// recognized, plans the outbound request. A raw value outside the
/// recognized set yields `InvalidAction` and no request, so nothing is
/// sent upstream for it.
pub fn plan_events_request(config: &Config, raw_action: &str) -> (r: Result<
    OutboundRequest,
    RelayError,
>)
    ensures
        r is Ok <==> is_recognized_action(raw_action@),
        r is Ok ==> r->Ok_0.url@ == spec_events_url(config.base_url@, raw_action@),
        r is Ok ==> r->Ok_0.bearer_token@ == config.api_key@,
        r is Err ==> r->Err_0 == RelayError::InvalidAction,
{
    match parse_action(raw_action) {
        Ok(action) => Ok(events_request(config, &action)),
        Err(e) => Err(e),
    }
}

} // verus!
