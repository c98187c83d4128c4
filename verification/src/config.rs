//! Configuration of the cache reader, the agent layer, and the loader
//! daemon, with the defaults each field falls back to.

use vstd::prelude::*;

verus! {

/// Which market data provider fetches missing data.
#[derive(Debug, Clone, PartialEq, Eq)]
pub enum ProviderKind {
    Yahoo,
    Alpaca,
}

impl Default for ProviderKind {
    /// The provider used when none is configured.
    fn default() -> (r: Self)
        ensures
            r is Yahoo,
    {
        ProviderKind::Yahoo
    }
}

/// Configuration of the whole loader daemon.
#[derive(Debug, Clone)]
pub struct LoaderConfig {
    pub cache: LoaderCacheConfig,
    pub market_data: MarketDataConfig,
    pub calculations: CalculationsConfig,
    pub stream: StreamConfig,
}

/// Where the shared store lives and how often stale rows are reclaimed.
#[derive(Debug, Clone)]
pub struct LoaderCacheConfig {
    pub sqlite_path: String,
    pub cleanup_interval_seconds: u64,
}

/// What market data is loaded, from where, and how long it lives.
#[derive(Debug, Clone)]
pub struct MarketDataConfig {
    pub data_path: String,
    pub symbols: Vec<String>,
    pub reference_symbols: Vec<String>,
    pub refresh_interval_seconds: u64,
    pub lookback_days: u32,
    pub ttl_seconds: u64,
    pub provider: ProviderKind,
}

/// Which indicators are computed and how long their rows live.
#[derive(Debug, Clone)]
pub struct CalculationsConfig {
    pub indicators: Vec<String>,
    pub ttl_seconds: u64,
}

/// Whether the stream source runs and how long its rows live.
#[derive(Debug, Clone)]
pub struct StreamConfig {
    pub enabled: bool,
    pub ttl_seconds: u64,
}

/// Seconds between stale-entry cleanup runs when none is configured.
pub fn default_cleanup_interval() -> (r: u64)
    ensures
        r == 300,
{
    300
}

/// The market-wide symbols always tracked when none are configured.
pub fn default_reference_symbols() -> (r: Vec<String>)
    ensures
        r@.len() == 3,
        r@[0]@ == "SPY"@,
        r@[1]@ == "VIX"@,
        r@[2]@ == "QQQ"@,
{
    let mut v: Vec<String> = Vec::new();
    v.push(String::from_str("SPY"));
    v.push(String::from_str("VIX"));
    v.push(String::from_str("QQQ"));
    v
}

/// Seconds between market-data refreshes when none is configured.
pub fn default_refresh_interval() -> (r: u64)
    ensures
        r == 300,
{
    300
}

/// Trading days of candles loaded per symbol when none is configured.
pub fn default_lookback_days() -> (r: u32)
    ensures
        r == 5,
{
    5
}

/// Lifetime of market-data rows when none is configured.
pub fn default_market_ttl() -> (r: u64)
    ensures
        r == 600,
{
    600
}

/// Lifetime of indicator rows when none is configured.
pub fn default_indicator_ttl() -> (r: u64)
    ensures
        r == 600,
{
    600
}

/// Lifetime of stream rows when none is configured.
pub fn default_stream_ttl() -> (r: u64)
    ensures
        r == 1800,
{
    1800
}

/// The value of boolean switches that default to on.
pub fn default_true() -> (r: bool)
    ensures
        r == true,
{
    true
}

/// Top-level configuration of the reading side.
#[derive(Debug, Clone)]
pub struct TirdsConfig {
    pub cache: CacheConfig,
    pub agents: AgentsConfig,
}

/// Configuration of the cache reader layer.
#[derive(Debug, Clone)]
pub struct CacheConfig {
    pub sqlite_path: String,
    pub memory_max_capacity: u64,
    pub memory_ttl_seconds: u64,
}

impl Default for CacheConfig {
    /// The shared store's conventional path, a ten-thousand-entry hot
    /// tier, and a minute of hot-tier lifetime.
    fn default() -> (r: Self)
        ensures
            r.sqlite_path@ == "data/tirds_cache.db"@,
            r.memory_max_capacity == 10000,
            r.memory_ttl_seconds == 60,
    {
        CacheConfig {
            sqlite_path: String::from_str("data/tirds_cache.db"),
            memory_max_capacity: 10000,
            memory_ttl_seconds: 60,
        }
    }
}

/// Configuration of the agent orchestration layer.
#[derive(Debug, Clone)]
pub struct AgentsConfig {
    pub total_timeout_seconds: u64,
    pub specialist_timeout_seconds: u64,
    pub synthesizer_model: String,
    pub specialist_model: String,
    pub specialists: Vec<SpecialistConfig>,
}

/// Configuration of a single specialist agent.
#[derive(Debug, Clone)]
pub struct SpecialistConfig {
    pub name: String,
    pub domain: String,
    pub model: Option<String>,
    pub enabled: bool,
}

impl Default for AgentsConfig {
    /// Four enabled specialists, one per analysis domain, each falling
    /// back to the shared specialist model.
    fn default() -> (r: Self)
        ensures
            r.total_timeout_seconds == 120,
            r.specialist_timeout_seconds == 45,
            r.synthesizer_model@ == "reasoner-large-latest"@,
            r.specialist_model@ == "reasoner-small-latest"@,
            r.specialists@.len() == 4,
            forall|i: int| 0 <= i < 4 ==> (#[trigger] r.specialists@[i]).enabled,
            forall|i: int| 0 <= i < 4 ==> (#[trigger] r.specialists@[i]).model is None,
            r.specialists@[0].name@ == "technical"@ && r.specialists@[0].domain@ == "technical"@,
            r.specialists@[1].name@ == "macro"@ && r.specialists@[1].domain@ == "macro"@,
            r.specialists@[2].name@ == "sentiment"@ && r.specialists@[2].domain@ == "sentiment"@,
            r.specialists@[3].name@ == "sector"@ && r.specialists@[3].domain@ == "sector"@,
    {
        let mut specialists: Vec<SpecialistConfig> = Vec::new();
        specialists.push(default_specialist("technical"));
        specialists.push(default_specialist("macro"));
        specialists.push(default_specialist("sentiment"));
        specialists.push(default_specialist("sector"));
        AgentsConfig {
            total_timeout_seconds: 120,
            specialist_timeout_seconds: 45,
            synthesizer_model: String::from_str("reasoner-large-latest"),
            specialist_model: String::from_str("reasoner-small-latest"),
            specialists,
        }
    }
}

/// One enabled specialist named after its domain, with no model override.
fn default_specialist(domain: &str) -> (r: SpecialistConfig)
    ensures
        r.name@ == domain@,
        r.domain@ == domain@,
        r.model is None,
        r.enabled,
{
    SpecialistConfig {
        name: String::from_str(domain),
        domain: String::from_str(domain),
        model: None,
        enabled: true,
    }
}

} // verus!
