//! Typed configuration for the server and the price sources. Reading and
//! parsing a configuration file is a collaborator's job; the core only
//! consumes these values.

use vstd::prelude::*;

verus! {

/// Whole-process configuration.
#[derive(Debug, Clone)]
pub struct Config {
    pub server: ServerConfig,
    pub feeds: Vec<FeedConfig>,
}

/// Settings of the query server and the freshness policy.
#[derive(Debug, Clone)]
pub struct ServerConfig {
    pub port: u16,
    pub staleness_threshold_secs: u64,
}

/// Settings of one price source.
#[derive(Debug, Clone)]
pub struct FeedConfig {
    pub feed_type: String,
    pub base_token: String,
    pub quote_token: String,
    pub interval_ms: u64,
    pub priority: u32,
    pub enabled: bool,
}

/// Default port of the query server.
pub fn default_port() -> (r: u16)
    ensures
        r == 8080,
{
    8080
}

/// Default staleness threshold, in seconds.
pub fn default_staleness_threshold_secs() -> (r: u64)
    ensures
        r == 30,
{
    30
}

/// Default polling interval, in milliseconds.
pub fn default_interval_ms() -> (r: u64)
    ensures
        r == 1500,
{
    1500
}

/// Default priority of a source that configures none: a large rank, so that
/// explicitly ranked sources win.
pub fn default_priority() -> (r: u32)
    ensures
        r == 100,
{
    100
}

/// Sources are enabled unless the configuration says otherwise.
pub fn default_enabled() -> (r: bool)
    ensures
        r == true,
{
    true
}

impl FeedConfig {
    /// The trading pair this source is configured for, as "BASE/QUOTE".
    pub fn pair(&self) -> (r: String)
        ensures
            r@ == self.base_token@ + "/"@ + self.quote_token@,
    {
        let mut s = self.base_token.clone();
        s.append("/");
        s.append(self.quote_token.as_str());
        s
    }
}

impl Default for ServerConfig {
    /// The default server settings.
    fn default() -> (r: Self)
        ensures
            r.port == 8080,
            r.staleness_threshold_secs == 30,
    {
        ServerConfig { port: default_port(), staleness_threshold_secs: default_staleness_threshold_secs() }
    }
}

} // verus!
