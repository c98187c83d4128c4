//! Typed failures of the cache layers. Database and JSON failures carry the
//! underlying library's message as plain text.

use vstd::prelude::*;

verus! {

/// Failures of the read side of the cache.
#[derive(Debug, Clone)]
pub enum CacheError {
    /// The database reported an error.
    Sqlite(String),
    /// A payload could not be handled as JSON.
    Json(String),
    /// An entry was present but past its expiry.
    Expired(String),
    /// The cache could not be reached at all.
    Unavailable(String),
}

/// Failures of the write side and of the ingestion daemon.
#[derive(Debug, Clone)]
pub enum LoaderError {
    Sqlite(String),
    Json(String),
    MarketData(String),
    Calculation(String),
    Stream(String),
    Config(String),
    Provider(String),
    Io(String),
}

/// Failures of the specialist-agent boundary.
#[derive(Debug, Clone)]
pub enum AgentError {
    Cli(String),
    Parse(String),
    Timeout(u64),
    Disabled(String),
    Cache(String),
    Json(String),
}

} // verus!
