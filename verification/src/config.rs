//! Startup configuration: a base URL and an API key, each readable from
//! a configuration file and from the environment, with the environment
//! taking precedence when both are present. Both keys are required;
//! a missing key is fatal at startup.
//!
//! The unverified startup code reads the two sources and hands the raw
//! optional values here; the merge itself is verified.

use vstd::prelude::*;

verus! {

/// The relay's configuration, immutable after startup.
pub struct Config {
    /// Base URL of the upstream identity-management API, ending in `/`
    /// by convention of the deployment (paths are appended verbatim).
    pub base_url: String,
    /// Bearer token presented to the upstream API.
    pub api_key: String,
}

/// Which required key was absent from both sources.
#[derive(Clone, Copy, Debug, PartialEq, Eq, Structural)]
pub enum ConfigError {
    MissingBaseUrl,
    MissingApiKey,
}

/// The value a key resolves to: the environment wins when both sources
/// supply one, otherwise the file value is used.
pub open spec fn resolved_value(file: Option<Seq<char>>, env: Option<Seq<char>>) -> Option<
    Seq<char>,
> {
    if env is Some {
        env
    } else {
        file
    }
}

/// View of an optional string as an optional character sequence.
pub open spec fn opt_str_view(o: Option<String>) -> Option<Seq<char>> {
    match o {
        Option::Some(s) => Option::Some(s@),
        Option::None => Option::None,
    }
}

/// Merges the two configuration sources into a `Config`, environment
/// first. Fails exactly when a required key is present in neither
/// source; the base URL is checked before the API key.
pub fn resolve_config(
    file_base_url: Option<String>,
    file_api_key: Option<String>,
    env_base_url: Option<String>,
    env_api_key: Option<String>,
) -> (r: Result<Config, ConfigError>)
    ensures
        r is Ok <==> ((file_base_url is Some || env_base_url is Some) && (file_api_key is Some
            || env_api_key is Some)),
        r is Ok ==> Option::Some(r->Ok_0.base_url@) == resolved_value(
            opt_str_view(file_base_url),
            opt_str_view(env_base_url),
        ),
        r is Ok ==> Option::Some(r->Ok_0.api_key@) == resolved_value(
            opt_str_view(file_api_key),
            opt_str_view(env_api_key),
        ),
        r is Err ==> (r->Err_0 == ConfigError::MissingBaseUrl <==> (file_base_url is None
            && env_base_url is None)),
        r is Err ==> (r->Err_0 == ConfigError::MissingApiKey <==> !(file_base_url is None
            && env_base_url is None)),
{
    let base_url = match env_base_url {
        Option::Some(v) => v,
        Option::None => match file_base_url {
            Option::Some(v) => v,
            Option::None => {
                return Err(ConfigError::MissingBaseUrl);
            },
        },
    };
    let api_key = match env_api_key {
        Option::Some(v) => v,
        Option::None => match file_api_key {
            Option::Some(v) => v,
            Option::None => {
                return Err(ConfigError::MissingApiKey);
            },
        },
    };
    Ok(Config { base_url, api_key })
}

} // verus!
