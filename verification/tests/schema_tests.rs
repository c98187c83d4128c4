use tirds::key_patterns;
use tirds::schema::CacheCategory;

#[test]
fn key_pattern_bars() {
    assert_eq!(key_patterns::bars("AAPL", "1d"), "bars:AAPL:1d");
}

#[test]
fn key_pattern_quote() {
    assert_eq!(key_patterns::quote("SPY"), "quote:SPY");
}

#[test]
fn key_pattern_indicator() {
    assert_eq!(
        key_patterns::indicator("rsi_14", "AAPL"),
        "indicator:rsi_14:AAPL"
    );
}

#[test]
fn key_pattern_reference() {
    assert_eq!(key_patterns::reference_symbol("VIX"), "ref:VIX");
}

#[test]
fn key_pattern_sentiment() {
    assert_eq!(
        key_patterns::sentiment("twitter", "TSLA"),
        "sentiment:twitter:TSLA"
    );
}

#[test]
fn cache_category_labels() {
    assert_eq!(CacheCategory::MarketData.label(), "market_data");
    assert_eq!(CacheCategory::Indicator.label(), "indicator");
    assert_eq!(CacheCategory::ReferenceSymbol.label(), "reference_symbol");
    assert_eq!(CacheCategory::Subscription.label(), "subscription");
    assert_eq!(CacheCategory::Sentiment.label(), "sentiment");
}

#[test]
fn leg_side_and_decay_labels() {
    assert_eq!(tirds::trade::LegSide::Buy.label(), "buy");
    assert_eq!(tirds::trade::LegSide::Sell.label(), "sell");
    assert_eq!(tirds::trade::DecayModel::Linear.label(), "linear");
    assert_eq!(tirds::trade::DecayModel::Exponential.label(), "exponential");
}
