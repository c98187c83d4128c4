use tirds::market::{
    candles_to_cache_rows, indicator_to_cache_row, parse_indicator_spec, symbol_category,
    CandleData,
};

fn sample_candles() -> Vec<CandleData> {
    vec![
        CandleData {
            timestamp: "2024-01-15T14:30:00+00:00".to_string(),
            open_price: "150.00".to_string(),
            high_price: "151.50".to_string(),
            low_price: "149.50".to_string(),
            close_price: "151.00".to_string(),
            volume: 100_000,
        },
        CandleData {
            timestamp: "2024-01-15T14:35:00+00:00".to_string(),
            open_price: "151.00".to_string(),
            high_price: "152.00".to_string(),
            low_price: "150.50".to_string(),
            close_price: "151.75".to_string(),
            volume: 85_000,
        },
    ]
}

#[test]
fn candles_to_rows_produces_bars_and_quote() {
    let candles = sample_candles();
    let rows = candles_to_cache_rows("AAPL", &candles, "market_data", 600);
    assert_eq!(rows.len(), 2);

    assert_eq!(rows[0].key, "bars:AAPL:5m");
    assert_eq!(rows[0].category, "market_data");
    assert!(rows[0].value_json.contains("151.00"));

    assert_eq!(rows[1].key, "quote:AAPL");
    assert!(rows[1].value_json.contains("151.75"));
}

#[test]
fn empty_candles_produce_no_rows() {
    let rows = candles_to_cache_rows("AAPL", &vec![], "market_data", 600);
    assert!(rows.is_empty());
}

#[test]
fn reference_symbol_uses_correct_category() {
    let candles = sample_candles();
    let rows = candles_to_cache_rows("SPY", &candles, "reference_symbol", 600);
    assert_eq!(rows[0].category, "reference_symbol");
}

#[test]
fn candle_payloads_are_json() {
    let candles = sample_candles();
    let rows = candles_to_cache_rows("AAPL", &candles, "market_data", 600);

    let bars: serde_json::Value = serde_json::from_str(&rows[0].value_json).unwrap();
    let arr = bars.as_array().unwrap();
    assert_eq!(arr.len(), 2);
    assert_eq!(arr[0]["close"], serde_json::Value::String("151.00".to_string()));
    assert_eq!(arr[1]["volume"], serde_json::from_str::<serde_json::Value>("85000").unwrap());

    let quote: serde_json::Value = serde_json::from_str(&rows[1].value_json).unwrap();
    assert_eq!(quote["price"], serde_json::Value::String("151.75".to_string()));
}

#[test]
fn parse_indicator_spec_with_period() {
    let (id, period) = parse_indicator_spec("sma_20");
    assert_eq!(id, "sma");
    assert_eq!(period, Some(20));
}

#[test]
fn parse_indicator_spec_plain() {
    let (id, period) = parse_indicator_spec("daily_profile");
    assert_eq!(id, "daily_profile");
    assert!(period.is_none());
}

#[test]
fn parse_indicator_spec_no_period() {
    let (id, period) = parse_indicator_spec("sma");
    assert_eq!(id, "sma");
    assert!(period.is_none());
}

#[test]
fn indicator_to_row_single_series() {
    let row = indicator_to_cache_row(
        "sma_20",
        "AAPL",
        r#"{"latest":3.0,"series":[1.0,2.0,3.0]}"#,
        600,
    );

    assert_eq!(row.key, "indicator:sma_20:AAPL");
    assert_eq!(row.category, "indicator");
    assert!(row.value_json.contains("3.0"));
}

#[test]
fn symbol_category_tells_reference_symbols_apart() {
    let refs = vec!["SPY".to_string(), "VIX".to_string()];
    assert_eq!(symbol_category("SPY", &refs), "reference_symbol");
    assert_eq!(symbol_category("AAPL", &refs), "market_data");
}

#[test]
fn parse_indicator_spec_signed_period() {
    let (id, period) = parse_indicator_spec("ema_-3");
    assert_eq!(id, "ema");
    assert_eq!(period, Some(-3));
}
