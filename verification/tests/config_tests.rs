use tirds::config::{
    default_cleanup_interval, default_indicator_ttl, default_lookback_days, default_market_ttl,
    default_reference_symbols, default_refresh_interval, default_stream_ttl, default_true,
    AgentsConfig, CacheConfig, ProviderKind,
};

#[test]
fn default_config_has_four_specialists() {
    let agents = AgentsConfig::default();
    assert_eq!(agents.specialists.len(), 4);
    assert!(agents.specialists.iter().all(|s| s.enabled));
}

#[test]
fn default_specialist_domains_in_order() {
    let agents = AgentsConfig::default();
    let domains: Vec<&str> = agents.specialists.iter().map(|s| s.domain.as_str()).collect();
    assert_eq!(domains, vec!["technical", "macro", "sentiment", "sector"]);
    assert_eq!(agents.total_timeout_seconds, 120);
    assert_eq!(agents.specialist_timeout_seconds, 45);
    assert_eq!(agents.specialist_model, "reasoner-small-latest");
}

#[test]
fn cache_config_defaults() {
    let cache = CacheConfig::default();
    assert_eq!(cache.sqlite_path, "data/tirds_cache.db");
    assert_eq!(cache.memory_max_capacity, 10_000);
    assert_eq!(cache.memory_ttl_seconds, 60);
}

#[test]
fn provider_defaults_to_yahoo() {
    assert_eq!(ProviderKind::default(), ProviderKind::Yahoo);
}

#[test]
fn loader_field_defaults() {
    assert_eq!(default_cleanup_interval(), 300);
    assert_eq!(default_refresh_interval(), 300);
    assert_eq!(default_lookback_days(), 5);
    assert_eq!(default_market_ttl(), 600);
    assert_eq!(default_indicator_ttl(), 600);
    assert_eq!(default_stream_ttl(), 1800);
    assert!(default_true());
    let refs = default_reference_symbols();
    assert_eq!(refs, vec!["SPY", "VIX", "QQQ"]);
}
