use chrono::Utc;
use tirds::schema::CacheRow;
use tirds::store::{SqliteReader, SqliteWriter};

fn make_row(key: &str, symbol: &str, ttl_seconds: i64) -> CacheRow {
    let now = Utc::now();
    CacheRow {
        key: key.to_string(),
        category: "indicator".to_string(),
        value_json: r#"{"value": 42.5}"#.to_string(),
        source: "test".to_string(),
        symbol: Some(symbol.to_string()),
        created_at: now.to_rfc3339(),
        expires_at: (now + chrono::Duration::seconds(ttl_seconds)).to_rfc3339(),
        updated_at: now.to_rfc3339(),
    }
}

#[test]
fn get_existing_key() {
    let mut reader = SqliteReader::open_in_memory().unwrap();
    let row = make_row("indicator:rsi_14:AAPL", "AAPL", 300);
    reader.insert(&row).unwrap();

    let result = reader.get("indicator:rsi_14:AAPL").unwrap();
    assert!(result.is_some());
    assert_eq!(result.unwrap().value_json, r#"{"value": 42.5}"#);
}

#[test]
fn get_missing_key() {
    let reader = SqliteReader::open_in_memory().unwrap();
    let result = reader.get("nonexistent").unwrap();
    assert!(result.is_none());
}

#[test]
fn get_expired_key() {
    let mut reader = SqliteReader::open_in_memory().unwrap();
    let row = make_row("indicator:rsi_14:AAPL", "AAPL", -10);
    reader.insert(&row).unwrap();

    let result = reader.get("indicator:rsi_14:AAPL").unwrap();
    assert!(result.is_none());
}

#[test]
fn sqlite_get_by_symbol() {
    let mut reader = SqliteReader::open_in_memory().unwrap();
    reader
        .insert(&make_row("indicator:rsi_14:AAPL", "AAPL", 300))
        .unwrap();
    reader
        .insert(&make_row("indicator:sma_20:AAPL", "AAPL", 300))
        .unwrap();
    reader
        .insert(&make_row("indicator:rsi_14:TSLA", "TSLA", 300))
        .unwrap();

    let results = reader.get_by_symbol("AAPL").unwrap();
    assert_eq!(results.len(), 2);
}

#[test]
fn get_by_prefix() {
    let mut reader = SqliteReader::open_in_memory().unwrap();
    reader
        .insert(&make_row("indicator:rsi_14:AAPL", "AAPL", 300))
        .unwrap();
    reader
        .insert(&make_row("indicator:sma_20:AAPL", "AAPL", 300))
        .unwrap();
    reader
        .insert(&make_row("bars:AAPL:1d", "AAPL", 300))
        .unwrap();

    let results = reader.get_by_prefix("indicator:").unwrap();
    assert_eq!(results.len(), 2);
}

#[test]
fn upsert_and_count() {
    let mut writer = SqliteWriter::open_in_memory().unwrap();
    writer
        .upsert(&make_row("indicator:rsi_14:AAPL", "AAPL", 300))
        .unwrap();
    assert_eq!(writer.count().unwrap(), 1);
}

#[test]
fn upsert_replaces_existing() {
    let mut writer = SqliteWriter::open_in_memory().unwrap();
    let mut row = make_row("indicator:rsi_14:AAPL", "AAPL", 300);
    writer.upsert(&row).unwrap();

    row.value_json = r#"{"value": 99.9}"#.to_string();
    writer.upsert(&row).unwrap();

    assert_eq!(writer.count().unwrap(), 1);
}

#[test]
fn upsert_batch() {
    let mut writer = SqliteWriter::open_in_memory().unwrap();
    let rows = vec![
        make_row("indicator:rsi_14:AAPL", "AAPL", 300),
        make_row("indicator:sma_20:AAPL", "AAPL", 300),
        make_row("quote:AAPL", "AAPL", 300),
    ];
    writer.upsert_batch(&rows).unwrap();
    assert_eq!(writer.count().unwrap(), 3);
}

#[test]
fn expire_stale() {
    let mut writer = SqliteWriter::open_in_memory().unwrap();
    let rows = vec![
        make_row("indicator:rsi_14:AAPL", "AAPL", 300),
        make_row("indicator:sma_20:AAPL", "AAPL", -10),
        make_row("quote:AAPL", "AAPL", -10),
    ];
    writer.upsert_batch(&rows).unwrap();
    assert_eq!(writer.count().unwrap(), 3);

    let deleted = writer.expire_stale().unwrap();
    assert_eq!(deleted, 2);
    assert_eq!(writer.count().unwrap(), 1);
}

#[test]
fn wal_mode_on_file() {
    let dir = tempfile::tempdir().unwrap();
    let path = dir.path().join("test_cache.db");
    let _writer = SqliteWriter::open(path.to_str().unwrap()).unwrap();
}

#[test]
fn fresh_insert_read_back_byte_identical() {
    let mut reader = SqliteReader::open_in_memory().unwrap();
    let mut row = make_row("indicator:rsi_14:AAPL", "AAPL", 300);
    row.value_json = r#"{"value":[28.0]}"#.to_string();
    reader.insert(&row).unwrap();

    let got = reader.get("indicator:rsi_14:AAPL").unwrap().unwrap();
    assert_eq!(got.value_json, r#"{"value":[28.0]}"#);
    assert_eq!(got.key, row.key);
    assert_eq!(got.category, row.category);
    assert_eq!(got.source, row.source);
    assert_eq!(got.symbol, row.symbol);
    assert_eq!(got.expires_at, row.expires_at);
}

#[test]
fn upsert_same_key_twice_second_payload_wins() {
    let mut reader = SqliteReader::open_in_memory().unwrap();
    let mut row = make_row("indicator:rsi_14:AAPL", "AAPL", 300);
    row.value_json = r#"{"value":[1.0]}"#.to_string();
    reader.insert(&row).unwrap();
    row.value_json = r#"{"value":[2.0]}"#.to_string();
    reader.insert(&row).unwrap();

    let results = reader.get_by_prefix("indicator:").unwrap();
    assert_eq!(results.len(), 1);
    let got = reader.get("indicator:rsi_14:AAPL").unwrap().unwrap();
    assert_eq!(got.value_json, r#"{"value":[2.0]}"#);
}

#[test]
fn expired_rows_hidden_from_all_reads() {
    let mut reader = SqliteReader::open_in_memory().unwrap();
    reader.insert(&make_row("quote:AAPL", "AAPL", 300)).unwrap();
    reader.insert(&make_row("quote:OLD", "AAPL", -5)).unwrap();

    assert!(reader.get("quote:OLD").unwrap().is_none());
    let by_symbol = reader.get_by_symbol("AAPL").unwrap();
    assert_eq!(by_symbol.len(), 1);
    assert_eq!(by_symbol[0].key, "quote:AAPL");
    let by_prefix = reader.get_by_prefix("quote:").unwrap();
    assert_eq!(by_prefix.len(), 1);
    assert_eq!(by_prefix[0].key, "quote:AAPL");
}

#[test]
fn expire_stale_is_idempotent() {
    let mut writer = SqliteWriter::open_in_memory().unwrap();
    writer.upsert(&make_row("quote:OLD", "AAPL", -5)).unwrap();
    writer.upsert(&make_row("quote:NEW", "AAPL", 600)).unwrap();

    assert_eq!(writer.expire_stale().unwrap(), 1);
    assert_eq!(writer.expire_stale().unwrap(), 0);
    assert_eq!(writer.count().unwrap(), 1);
}

#[test]
fn expire_three_of_five() {
    let mut writer = SqliteWriter::open_in_memory().unwrap();
    writer.upsert(&make_row("a:1", "AAPL", -30)).unwrap();
    writer.upsert(&make_row("a:2", "AAPL", -20)).unwrap();
    writer.upsert(&make_row("a:3", "AAPL", -10)).unwrap();
    writer.upsert(&make_row("b:1", "AAPL", 300)).unwrap();
    writer.upsert(&make_row("b:2", "AAPL", 600)).unwrap();

    assert_eq!(writer.expire_stale().unwrap(), 3);
    assert_eq!(writer.count().unwrap(), 2);
}

#[test]
fn reader_open_missing_file_is_error() {
    let dir = tempfile::tempdir().unwrap();
    let path = dir.path().join("no_such.db");
    let result = SqliteReader::open(path.to_str().unwrap());
    assert!(matches!(result, Err(tirds::errors::CacheError::Sqlite(_))));
}

#[test]
fn writer_open_bad_path_is_error() {
    let dir = tempfile::tempdir().unwrap();
    // A directory cannot be opened as a database file.
    let result = SqliteWriter::open(dir.path().to_str().unwrap());
    assert!(matches!(result, Err(tirds::errors::LoaderError::Sqlite(_))));
}
