use chrono::Utc;
use tirds::schema::CacheRow;
use tirds::store::{SqliteReader, SqliteWriter};

fn make_row(key: &str, symbol: &str, value_json: &str, ttl_seconds: i64) -> CacheRow {
    let now = Utc::now();
    CacheRow {
        key: key.to_string(),
        category: "market_data".to_string(),
        value_json: value_json.to_string(),
        source: "test".to_string(),
        symbol: Some(symbol.to_string()),
        created_at: now.to_rfc3339(),
        expires_at: (now + chrono::Duration::seconds(ttl_seconds)).to_rfc3339(),
        updated_at: now.to_rfc3339(),
    }
}

#[test]
fn batch_is_atomic_under_concurrent_prefix_scans() {
    let dir = tempfile::tempdir().unwrap();
    let path = dir.path().join("atomic.db").to_str().unwrap().to_string();

    // Create the file and turn on write-ahead logging before anyone reads.
    {
        let mut w = SqliteWriter::open(&path).unwrap();
        w.upsert(&make_row("seed:0", "SEED", r#"{"v":0}"#, 300)).unwrap();
    }

    let rt = tokio::runtime::Builder::new_multi_thread()
        .worker_threads(3)
        .build()
        .unwrap();

    let reader_path = path.clone();
    let scans = rt.spawn_blocking(move || {
        let reader = SqliteReader::open(&reader_path).unwrap();
        for _ in 0..400 {
            let rows = reader.get_by_prefix("batch:").unwrap();
            // Every observed set is all-or-nothing, with one payload
            // shared by the whole batch.
            assert!(rows.len() == 0 || rows.len() == 10, "partial batch seen");
            if rows.len() == 10 {
                let first = rows[0].value_json.clone();
                for row in &rows {
                    assert_eq!(row.value_json, first, "mixed payloads in one batch");
                }
            }
        }
    });

    let write_path = path.clone();
    let writes = rt.spawn_blocking(move || {
        let mut w = SqliteWriter::open(&write_path).unwrap();
        for round in 0..60 {
            let payload = format!(r#"{{"round": {round}}}"#);
            let mut rows = Vec::new();
            for k in 0..10 {
                rows.push(make_row(&format!("batch:item_{k}"), "AAPL", &payload, 300));
            }
            w.upsert_batch(&rows).unwrap();
        }
    });

    rt.block_on(async {
        scans.await.unwrap();
        writes.await.unwrap();
    });

    let final_reader = SqliteReader::open(&path).unwrap();
    assert_eq!(final_reader.get_by_prefix("batch:").unwrap().len(), 10);
}

#[test]
fn many_readers_one_writer_without_busy_errors() {
    let dir = tempfile::tempdir().unwrap();
    let path = dir.path().join("stress.db").to_str().unwrap().to_string();

    {
        let mut w = SqliteWriter::open(&path).unwrap();
        w.upsert(&make_row("seed:0", "AAPL", r#"{"v":0}"#, 300)).unwrap();
    }

    let rt = tokio::runtime::Builder::new_multi_thread()
        .worker_threads(5)
        .build()
        .unwrap();

    let mut reader_tasks = Vec::new();
    for _ in 0..4 {
        let p = path.clone();
        reader_tasks.push(rt.spawn_blocking(move || {
            let reader = SqliteReader::open(&p).unwrap();
            let mut last_len = 0usize;
            for _ in 0..150 {
                let rows = reader.get_by_symbol("AAPL").unwrap();
                // Row count only grows: the writer never deletes here,
                // so each scan reflects some valid interleaving.
                assert!(rows.len() >= last_len, "row count went backwards");
                last_len = rows.len();
            }
            last_len
        }));
    }

    let wp = path.clone();
    let writer_task = rt.spawn_blocking(move || {
        let mut w = SqliteWriter::open(&wp).unwrap();
        for k in 0..300 {
            let row = make_row(&format!("stress:{k}"), "AAPL", r#"{"v":1}"#, 300);
            w.upsert(&row).unwrap();
        }
    });

    rt.block_on(async {
        for t in reader_tasks {
            let seen = t.await.unwrap();
            assert!(seen >= 1);
        }
        writer_task.await.unwrap();
    });

    let w = SqliteWriter::open(&path).unwrap();
    assert_eq!(w.count().unwrap(), 301);
}
