use std::time::Duration;
use tirds::memory::MemoryCache;

#[test]
fn insert_and_get() {
    let mut cache = MemoryCache::new(100, 60_000);
    cache.insert("key1".to_string(), "value1".to_string());

    let result = cache.get("key1");
    assert_eq!(result, Some("value1".to_string()));
}

#[test]
fn get_missing() {
    let cache = MemoryCache::new(100, 60_000);
    let result = cache.get("nonexistent");
    assert_eq!(result, None);
}

#[test]
fn invalidate() {
    let mut cache = MemoryCache::new(100, 60_000);
    cache.insert("key1".to_string(), "value1".to_string());
    cache.invalidate("key1");

    let result = cache.get("key1");
    assert_eq!(result, None);
}

#[test]
fn ttl_expiration() {
    let mut cache = MemoryCache::new(100, 50);
    cache.insert("key1".to_string(), "value1".to_string());

    assert!(cache.get("key1").is_some());

    let rt = tokio::runtime::Builder::new_current_thread()
        .enable_time()
        .build()
        .unwrap();
    rt.block_on(async { tokio::time::sleep(Duration::from_millis(120)).await });

    assert!(cache.get("key1").is_none());
}

#[test]
fn insert_overwrites_value() {
    let mut cache = MemoryCache::new(100, 60_000);
    cache.insert("key1".to_string(), "old".to_string());
    cache.insert("key1".to_string(), "new".to_string());
    assert_eq!(cache.get("key1"), Some("new".to_string()));
}
