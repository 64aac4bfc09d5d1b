//! What one run needs to know: the API token and the zone, both taken from
//! the environment by the caller, and the fixed window that is asked for.

use vstd::prelude::*;
use crate::query::CfFetchOptions;

verus! {

/// A required setting that was not given.
#[derive(Debug, Clone, Copy, PartialEq, Eq)]
pub enum ConfigError {
    /// `CF_API_TOKEN` is not set.
    MissingApiToken,
    /// `CF_ZONE_ID` is not set.
    MissingZoneId,
}

/// The one line that tells a reader which setting is missing.
pub open spec fn config_message_text(error: ConfigError) -> Seq<char> {
    match error {
        ConfigError::MissingApiToken => "CF_API_TOKEN environment variable is required"@,
        ConfigError::MissingZoneId => "CF_ZONE_ID environment variable is required"@,
    }
}

impl ConfigError {
    /// The one line that tells a reader which setting is missing.
    pub fn message(&self) -> (line: String)
        ensures
            line@ == config_message_text(*self),
    {
        match self {
            ConfigError::MissingApiToken => String::from_str(
                "CF_API_TOKEN environment variable is required",
            ),
            ConfigError::MissingZoneId => String::from_str(
                "CF_ZONE_ID environment variable is required",
            ),
        }
    }
}

/// The settings of one run.
#[derive(Debug, PartialEq, Eq)]
pub struct Config {
    pub api_token: String,
    pub zone_id: String,
}

/// The first instant of the window that is asked for.
pub open spec fn window_start() -> Seq<char> {
    "2025-12-17T15:00:00Z"@
}

/// The last instant of the window that is asked for.
pub open spec fn window_end() -> Seq<char> {
    "2025-12-18T15:00:00Z"@
}

/// The number of status groups that is asked for at most.
pub const GROUP_LIMIT: u32 = 10;

/// Puts the settings together from the values of `CF_API_TOKEN` and
/// `CF_ZONE_ID`, each `None` where the variable is not set.
///
/// Both are required. A missing token is reported before a missing zone.
pub fn load_config(api_token: Option<String>, zone_id: Option<String>) -> (loaded: Result<
    Config,
    ConfigError,
>)
    ensures
        match loaded {
            Ok(config) => api_token == Some(config.api_token) && zone_id == Some(config.zone_id),
            Err(ConfigError::MissingApiToken) => api_token is None,
            Err(ConfigError::MissingZoneId) => api_token is Some && zone_id is None,
        },
{
    match api_token {
        None => Err(ConfigError::MissingApiToken),
        Some(api_token) => match zone_id {
            None => Err(ConfigError::MissingZoneId),
            Some(zone_id) => Ok(Config { api_token, zone_id }),
        },
    }
}

impl Config {
    /// The options of the one query that a run makes: this zone, the fixed
    /// window, and at most `GROUP_LIMIT` groups.
    pub fn options(&self) -> (opts: CfFetchOptions<'_>)
        ensures
            opts.zone_id@ == self.zone_id@,
            opts.start_date@ == window_start(),
            opts.end_date@ == window_end(),
            opts.limit == GROUP_LIMIT,
    {
        CfFetchOptions {
            zone_id: self.zone_id.as_str(),
            start_date: "2025-12-17T15:00:00Z",
            end_date: "2025-12-18T15:00:00Z",
            limit: GROUP_LIMIT,
        }
    }
}

} // verus!
