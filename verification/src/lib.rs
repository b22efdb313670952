//! A small relay that aggregates data from an identity-management API:
//! a user count passed through unchanged, and a trailing 24-hour
//! windowed sum of event counts. All of the relay's decisions are made
//! here under verified contracts — merging the configuration sources,
//! validating the `action` parameter, building the outbound URLs and
//! authorization header, the windowed aggregation, and the mapping of
//! upstream outcomes to responses. Network I/O, the clock and JSON
//! (de)serialization stay outside the library and hand in plain values.

pub mod action;
pub mod config;
pub mod error;
pub mod events;
pub mod handlers;
pub mod request;
pub mod route;
pub mod text;
pub mod users;
