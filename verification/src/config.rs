//! Process-wide configuration: constructed once at startup from the
//! environment (outside the library) and passed by reference into every
//! component that needs it.

use vstd::prelude::*;

verus! {

/// Immutable configuration: the listen port, the addresses of the relational
/// and key-value stores, the token-signing secret, and the per-provider API
/// credentials (absent when a provider is unconfigured).
#[derive(Debug, Clone, PartialEq, Eq)]
pub struct Config {
    pub app_port: u16,
    pub database_url: String,
    pub redis_url: String,
    pub jwt_secret: String,
    pub github_api_token: Option<String>,
    pub openweather_api_key: Option<String>,
    pub newsapi_api_key: Option<String>,
    pub coinmarketcap_api_key: Option<String>,
}

} // verus!
