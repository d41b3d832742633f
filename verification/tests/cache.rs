//! The bounded cache on its own: lookup, replacement and eviction.

use tba_client::{EndPointCache, EndPointCacheEntry};
use std::sync::Arc;

fn entry(val: u32, etag: &str) -> EndPointCacheEntry<Arc<u32>> {
    EndPointCacheEntry { val: Arc::new(val), etag: etag.to_string() }
}

#[test]
fn get_returns_what_insert_stored() {
    let mut cache: EndPointCache<u32> = EndPointCache::new(4);
    assert!(cache.get(&"a".to_string()).is_none());
    cache.insert("a".to_string(), entry(1, "e1"));
    let got = cache.get(&"a".to_string()).unwrap();
    assert_eq!(*got.val, 1);
    assert_eq!(got.etag, "e1");
    assert!(cache.get(&"b".to_string()).is_none());
}

#[test]
fn insert_replaces_existing_entry() {
    let mut cache: EndPointCache<u32> = EndPointCache::new(4);
    cache.insert("a".to_string(), entry(1, "e1"));
    cache.insert("a".to_string(), entry(2, "e2"));
    let got = cache.get(&"a".to_string()).unwrap();
    assert_eq!(*got.val, 2);
    assert_eq!(got.etag, "e2");
}

#[test]
fn full_cache_evicts_oldest_write() {
    let mut cache: EndPointCache<u32> = EndPointCache::new(2);
    cache.insert("a".to_string(), entry(1, "e1"));
    cache.insert("b".to_string(), entry(2, "e2"));
    cache.insert("c".to_string(), entry(3, "e3"));
    assert!(cache.get(&"a".to_string()).is_none());
    assert_eq!(*cache.get(&"b".to_string()).unwrap().val, 2);
    assert_eq!(*cache.get(&"c".to_string()).unwrap().val, 3);
}

#[test]
fn replacement_keeps_other_entries() {
    let mut cache: EndPointCache<u32> = EndPointCache::new(2);
    cache.insert("a".to_string(), entry(1, "e1"));
    cache.insert("b".to_string(), entry(2, "e2"));
    // Re-writing an existing key must not evict anything.
    cache.insert("a".to_string(), entry(10, "e10"));
    assert_eq!(*cache.get(&"a".to_string()).unwrap().val, 10);
    assert_eq!(*cache.get(&"b".to_string()).unwrap().val, 2);
    // "b" is now the oldest write and leaves first.
    cache.insert("c".to_string(), entry(3, "e3"));
    assert!(cache.get(&"b".to_string()).is_none());
    assert_eq!(*cache.get(&"a".to_string()).unwrap().val, 10);
}

#[test]
fn shared_handles_point_at_one_allocation() {
    let mut cache: EndPointCache<u32> = EndPointCache::new(2);
    cache.insert("a".to_string(), entry(1, "e1"));
    let one = cache.get(&"a".to_string()).unwrap();
    let two = cache.get(&"a".to_string()).unwrap();
    assert!(Arc::ptr_eq(&one.val, &two.val));
}
