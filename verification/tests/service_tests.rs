use std::time::Duration;
use chrono::Utc;
use tirds::schema::CacheRow;
use tirds::service::CacheReader;
use tirds::store::{SqliteReader, SqliteWriter};

fn make_row(key: &str, symbol: &str, value_json: &str, ttl_seconds: i64) -> CacheRow {
    let now = Utc::now();
    CacheRow {
        key: key.to_string(),
        category: "indicator".to_string(),
        value_json: value_json.to_string(),
        source: "test".to_string(),
        symbol: Some(symbol.to_string()),
        created_at: now.to_rfc3339(),
        expires_at: (now + chrono::Duration::seconds(ttl_seconds)).to_rfc3339(),
        updated_at: now.to_rfc3339(),
    }
}

fn setup_reader() -> CacheReader {
    let mut sqlite = SqliteReader::open_in_memory().unwrap();
    sqlite
        .insert(&make_row(
            "indicator:rsi_14:AAPL",
            "AAPL",
            r#"{"value": 35.5}"#,
            300,
        ))
        .unwrap();
    sqlite
        .insert(&make_row(
            "indicator:sma_20:AAPL",
            "AAPL",
            r#"{"value": 152.30}"#,
            300,
        ))
        .unwrap();
    sqlite
        .insert(&make_row(
            "quote:AAPL",
            "AAPL",
            r#"{"price": 150.25, "volume": 1000000}"#,
            300,
        ))
        .unwrap();

    CacheReader::new(sqlite, 100, 60_000)
}

#[test]
fn read_through_sqlite_to_moka() {
    let mut reader = setup_reader();

    let result = reader.get_json("indicator:rsi_14:AAPL").unwrap();
    assert!(result.is_some());
    let val: serde_json::Value = serde_json::from_str(&result.unwrap()).unwrap();
    assert_eq!(val["value"], serde_json::from_str::<serde_json::Value>("35.5").unwrap());

    let result2 = reader.get_json("indicator:rsi_14:AAPL").unwrap();
    let val2: serde_json::Value = serde_json::from_str(&result2.unwrap()).unwrap();
    assert_eq!(val2["value"], serde_json::from_str::<serde_json::Value>("35.5").unwrap());

    assert!(reader.hot_cache_size() <= 100);
}

#[test]
fn get_json_raw() {
    let mut reader = setup_reader();

    let json = reader.get_json("quote:AAPL").unwrap();
    assert!(json.is_some());
    assert!(json.unwrap().contains("150.25"));
}

#[test]
fn get_missing_returns_none() {
    let mut reader = setup_reader();

    let result = reader.get_json("nonexistent").unwrap();
    assert!(result.is_none());
}

#[test]
fn reader_get_by_symbol() {
    let reader = setup_reader();

    let rows = reader.get_by_symbol("AAPL").unwrap();
    assert_eq!(rows.len(), 3);
}

#[test]
fn build_domain_snapshot() {
    let reader = setup_reader();

    let snapshot = reader.build_domain_snapshot("AAPL").unwrap();
    assert_eq!(snapshot.len(), 3);
    assert!(snapshot.contains_key("indicator:rsi_14:AAPL"));
    assert!(snapshot.contains_key("indicator:sma_20:AAPL"));
    assert!(snapshot.contains_key("quote:AAPL"));
}

#[test]
fn snapshot_keys_are_unexpired_and_values_parsed() {
    let mut sqlite = SqliteReader::open_in_memory().unwrap();
    sqlite
        .insert(&make_row("quote:AAPL", "AAPL", r#"{"price": 1}"#, 300))
        .unwrap();
    sqlite
        .insert(&make_row("quote:STALE", "AAPL", r#"{"price": 2}"#, -10))
        .unwrap();
    sqlite
        .insert(&make_row("quote:BROKEN", "AAPL", "not json at all", 300))
        .unwrap();
    let reader = CacheReader::new(sqlite, 100, 60_000);

    let snapshot = reader.build_domain_snapshot("AAPL").unwrap();
    assert_eq!(snapshot.len(), 1);
    let expected: serde_json::Value = serde_json::from_str(r#"{"price": 1}"#).unwrap();
    assert_eq!(snapshot.get("quote:AAPL"), Some(&expected));
}

#[test]
fn hot_tier_serves_second_read_within_ttl() {
    let dir = tempfile::tempdir().unwrap();
    let path = dir.path().join("tiered.db");
    let path = path.to_str().unwrap();

    let mut writer = SqliteWriter::open(path).unwrap();
    writer
        .upsert(&make_row("quote:AAPL", "AAPL", r#"{"price": 1}"#, 300))
        .unwrap();

    let sqlite = SqliteReader::open(path).unwrap();
    let mut service = CacheReader::new(sqlite, 100, 60_000);

    // The first read is served from the store and promoted.
    assert_eq!(service.get_json("quote:AAPL").unwrap().unwrap(), r#"{"price": 1}"#);

    // The store moves on, but a read within the hot-tier window still
    // sees the promoted value: the store was not consulted again.
    writer
        .upsert(&make_row("quote:AAPL", "AAPL", r#"{"price": 2}"#, 300))
        .unwrap();
    assert_eq!(service.get_json("quote:AAPL").unwrap().unwrap(), r#"{"price": 1}"#);
}

#[test]
fn hot_tier_window_elapses_to_current_state() {
    let dir = tempfile::tempdir().unwrap();
    let path = dir.path().join("tiered2.db");
    let path = path.to_str().unwrap();

    let mut writer = SqliteWriter::open(path).unwrap();
    writer
        .upsert(&make_row("quote:AAPL", "AAPL", r#"{"price": 1}"#, 300))
        .unwrap();

    let sqlite = SqliteReader::open(path).unwrap();
    let mut service = CacheReader::new(sqlite, 100, 50);

    assert_eq!(service.get_json("quote:AAPL").unwrap().unwrap(), r#"{"price": 1}"#);
    writer
        .upsert(&make_row("quote:AAPL", "AAPL", r#"{"price": 2}"#, 300))
        .unwrap();

    let rt = tokio::runtime::Builder::new_current_thread()
        .enable_time()
        .build()
        .unwrap();
    rt.block_on(async { tokio::time::sleep(Duration::from_millis(120)).await });

    // The hot entry has aged out; the next read reflects the store.
    assert_eq!(service.get_json("quote:AAPL").unwrap().unwrap(), r#"{"price": 2}"#);
}

#[test]
fn snapshot_from_rows_keys_and_values() {
    let rows = vec![
        make_row("quote:AAPL", "AAPL", r#"{"price": 1}"#, 300),
        make_row("quote:BROKEN", "AAPL", "{not json", 300),
        make_row("quote:MSFT", "MSFT", r#"{"price": 2}"#, 300),
    ];
    let obj = tirds::service::snapshot_from_rows(&rows);
    assert_eq!(obj.len(), 2);
    let one: serde_json::Value = serde_json::from_str(r#"{"price": 1}"#).unwrap();
    let two: serde_json::Value = serde_json::from_str(r#"{"price": 2}"#).unwrap();
    assert_eq!(obj.get("quote:AAPL"), Some(&one));
    assert_eq!(obj.get("quote:MSFT"), Some(&two));
    assert!(obj.get("quote:BROKEN").is_none());
}
