use runner_dash::cache::unix_seconds;
use runner_dash::cache::Cache;
use runner_dash::cache::CacheEntry;
use runner_dash::cache::DEFAULT_TTL;

#[test]
fn value_is_served_while_younger_than_ttl() {
    let mut cache: Cache<u32> = Cache::new();
    cache.insert_at("k".to_string(), 7, Some(1), 100);
    assert_eq!(cache.get_at("k", 100), Some(&7));
}

#[test]
fn value_is_gone_once_age_reaches_ttl() {
    let mut cache: Cache<u32> = Cache::new();
    cache.insert_at("k".to_string(), 7, Some(1), 100);
    assert_eq!(cache.get_at("k", 101), None);
    assert_eq!(cache.get_at("k", 102), None);
}

#[test]
fn default_ttl_is_three_hundred_seconds() {
    assert_eq!(DEFAULT_TTL, 300);
    let mut cache: Cache<&'static str> = Cache::new();
    cache.insert_at("k".to_string(), "v", None, 1000);
    assert_eq!(cache.get_at("k", 1299), Some(&"v"));
    assert_eq!(cache.get_at("k", 1300), None);
}

#[test]
fn write_replaces_an_expired_entry() {
    let mut cache: Cache<u32> = Cache::new();
    cache.insert_at("k".to_string(), 1, Some(10), 0);
    assert_eq!(cache.get_at("k", 50), None);
    cache.insert_at("k".to_string(), 2, Some(10), 50);
    assert_eq!(cache.get_at("k", 55), Some(&2));
}

#[test]
fn write_overwrites_a_fresh_entry() {
    let mut cache: Cache<u32> = Cache::new();
    cache.insert_at("k".to_string(), 1, Some(100), 0);
    cache.insert_at("k".to_string(), 2, Some(100), 1);
    assert_eq!(cache.get_at("k", 2), Some(&2));
}

#[test]
fn keys_do_not_interfere() {
    let mut cache: Cache<u32> = Cache::new();
    cache.insert_at("a".to_string(), 1, Some(5), 0);
    cache.insert_at("b".to_string(), 2, Some(50), 0);
    assert_eq!(cache.get_at("a", 10), None);
    assert_eq!(cache.get_at("b", 10), Some(&2));
    assert_eq!(cache.get_at("c", 0), None);
}

#[test]
fn entry_from_an_earlier_clock_is_fresh() {
    let mut cache: Cache<u32> = Cache::new();
    cache.insert_at("k".to_string(), 1, Some(1), 100);
    assert_eq!(cache.get_at("k", 90), Some(&1));
}

#[test]
fn zero_ttl_is_never_served_afterwards() {
    let mut cache: Cache<u32> = Cache::new();
    cache.insert_at("k".to_string(), 1, Some(0), 100);
    assert_eq!(cache.get_at("k", 100), None);
}

#[test]
fn entry_expiry_at_given_times() {
    let entry = CacheEntry::at("x", 10, 1000);
    assert_eq!(entry.timestamp, 1000);
    assert_eq!(entry.ttl, 10);
    assert!(!entry.is_expired_at(1000));
    assert!(!entry.is_expired_at(1009));
    assert!(entry.is_expired_at(1010));
    assert!(!entry.is_expired_at(999));
}

#[test]
fn clock_stamped_entry_is_fresh_at_once() {
    let entry = CacheEntry::new(5u8, 3600);
    assert_eq!(entry.item, 5);
    assert!(!entry.is_expired());
    let now = unix_seconds();
    assert!(entry.timestamp <= now);
    assert!(now > 1_600_000_000);
}

#[test]
fn clock_stamped_insert_is_found_at_once() {
    let mut cache: Cache<String> = Cache::new();
    cache.insert("k".to_string(), "v".to_string());
    assert_eq!(cache.get("k"), Some(&"v".to_string()));
    cache.insert_with_ttl("short".to_string(), "w".to_string(), Some(0));
    assert_eq!(cache.get("short"), None);
    assert_eq!(cache.get("missing"), None);
}
