use cfdns::cache::{Cache, ZoneStep};

#[test]
fn fresh_cache_misses() {
    let cache = Cache::new();
    assert!(cache.get("example.com").is_none());
    assert_eq!(cache.resolve_step("example.com"), ZoneStep::Miss);
}

#[test]
fn second_resolve_after_insert_is_a_hit() {
    let mut cache = Cache::new();
    // first resolution: a miss obliges the caller to the external lookup
    assert_eq!(cache.resolve_step("example.com"), ZoneStep::Miss);
    // ... whose result it inserts back
    cache.insert("example.com".to_owned(), "zone-id-1".to_owned());
    // the second resolution returns the memoised id with no external call
    assert_eq!(cache.resolve_step("example.com"), ZoneStep::Hit("zone-id-1".to_owned()));
}

#[test]
fn insert_replaces_the_previous_binding() {
    let mut cache = Cache::new();
    cache.insert("example.com".to_owned(), "old".to_owned());
    cache.insert("example.com".to_owned(), "new".to_owned());
    assert_eq!(cache.get("example.com"), Some(&"new".to_owned()));
    assert_eq!(cache.entries().len(), 1);
}

#[test]
fn distinct_zones_are_independent() {
    let mut cache = Cache::new();
    cache.insert("a.org".to_owned(), "ida".to_owned());
    cache.insert("b.org".to_owned(), "idb".to_owned());
    assert_eq!(cache.get("a.org"), Some(&"ida".to_owned()));
    assert_eq!(cache.get("b.org"), Some(&"idb".to_owned()));
    assert!(cache.get("c.org").is_none());
}

#[test]
fn persisted_entries_round_trip() {
    let mut cache = Cache::new();
    cache.insert("a.org".to_owned(), "ida".to_owned());
    cache.insert("b.org".to_owned(), "idb".to_owned());
    let stored = cache.entries().clone();
    let reloaded = Cache::from_entries(&stored);
    assert_eq!(reloaded.get("a.org"), Some(&"ida".to_owned()));
    assert_eq!(reloaded.get("b.org"), Some(&"idb".to_owned()));
}

#[test]
fn later_store_entry_overrides_earlier() {
    let stored = vec![
        ("z.org".to_owned(), "stale".to_owned()),
        ("z.org".to_owned(), "fresh".to_owned()),
    ];
    let cache = Cache::from_entries(&stored);
    assert_eq!(cache.get("z.org"), Some(&"fresh".to_owned()));
    assert_eq!(cache.entries().len(), 1);
}

#[test]
fn threadsafe_cache_is_shared() {
    let mut cache = Cache::new();
    cache.insert("example.com".to_owned(), "zone-id-1".to_owned());
    let shared = cache.into_threadsafe();
    let other = shared.clone();
    {
        let guard = other.read().unwrap();
        assert_eq!(guard.get("example.com"), Some(&"zone-id-1".to_owned()));
    }
    {
        let mut guard = shared.write().unwrap();
        guard.insert("b.org".to_owned(), "idb".to_owned());
    }
    assert_eq!(other.read().unwrap().get("b.org"), Some(&"idb".to_owned()));
}
