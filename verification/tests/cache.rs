use std::time::Duration;
use tplink::cache::Cache;
use tplink::error::Error;
use tplink::proto::Request;
use tplink::transport::{invalidate, invalidate_all};

const SECOND: u128 = 1_000_000_000;

fn key(ns: &str, cmd: &str) -> Request {
    Request::new(ns, cmd, None)
}

fn three_seconds() -> Cache<Request, u32> {
    Cache::with_ttl(Duration::from_secs(3))
}

#[test]
fn new_cache_is_empty() {
    let cache = three_seconds();
    assert_eq!(cache.len(), 0);
    assert_eq!(cache.hits(), Some(0));
    assert_eq!(cache.misses(), Some(0));
    assert_eq!(cache.ttl(), Some(Duration::from_secs(3)));
}

#[test]
fn with_capacity_is_empty_too() {
    let cache: Cache<Request, u32> = Cache::with_ttl_and_capacity(Duration::from_millis(1500), 16);
    assert_eq!(cache.len(), 0);
    assert_eq!(cache.ttl(), Some(Duration::from_millis(1500)));
}

#[test]
fn entry_is_found_until_its_age_reaches_the_ttl() {
    let mut cache = three_seconds();
    assert_eq!(cache.insert_at(key("system", "get_sysinfo"), 7, 10 * SECOND), None);
    // immediately
    assert_eq!(cache.get_at(&key("system", "get_sysinfo"), 10 * SECOND), Some(&7));
    // one nanosecond before the time to live has passed
    assert_eq!(cache.get_at(&key("system", "get_sysinfo"), 13 * SECOND - 1), Some(&7));
    assert_eq!(cache.len(), 1);
    assert_eq!(cache.hits(), Some(2));
    assert_eq!(cache.misses(), Some(0));
    // exactly the time to live later
    assert_eq!(cache.get_at(&key("system", "get_sysinfo"), 13 * SECOND), None);
    assert_eq!(cache.len(), 0);
    assert_eq!(cache.hits(), Some(2));
    assert_eq!(cache.misses(), Some(1));
}

#[test]
fn expired_entry_is_evicted_and_stays_gone() {
    let mut cache = three_seconds();
    cache.insert_at(key("a", "x"), 1, 0);
    cache.insert_at(key("b", "y"), 2, 0);
    assert_eq!(cache.len(), 2);
    assert_eq!(cache.get_at(&key("a", "x"), 5 * SECOND), None);
    assert_eq!(cache.len(), 1);
    // an earlier reading does not bring it back
    assert_eq!(cache.get_at(&key("a", "x"), 0), None);
    assert_eq!(cache.misses(), Some(2));
    assert_eq!(cache.get_at(&key("b", "y"), SECOND), Some(&2));
}

#[test]
fn reading_before_the_stamp_counts_as_age_zero() {
    let mut cache = three_seconds();
    cache.insert_at(key("a", "x"), 1, 100 * SECOND);
    assert_eq!(cache.get_at(&key("a", "x"), 0), Some(&1));
}

#[test]
fn zero_ttl_never_hits() {
    let mut cache: Cache<Request, u32> = Cache::with_ttl(Duration::from_secs(0));
    cache.insert_at(key("a", "x"), 1, 5);
    assert_eq!(cache.get_at(&key("a", "x"), 5), None);
    assert_eq!(cache.len(), 0);
}

#[test]
fn unknown_key_is_a_miss() {
    let mut cache = three_seconds();
    assert_eq!(cache.get_at(&key("a", "x"), 0), None);
    assert_eq!(cache.misses(), Some(1));
    assert_eq!(cache.hits(), Some(0));
}

#[test]
fn insert_overwrites_and_resets_the_age() {
    let mut cache = three_seconds();
    assert_eq!(cache.insert_at(key("a", "x"), 1, 0), None);
    assert_eq!(cache.insert_at(key("a", "x"), 2, 2 * SECOND), Some(1));
    assert_eq!(cache.len(), 1);
    // 4 s after the first insert, 2 s after the second
    assert_eq!(cache.get_at(&key("a", "x"), 4 * SECOND), Some(&2));
}

#[test]
fn cache_key_ignores_the_argument() {
    let mut cache: Cache<Request, &'static str> = Cache::with_ttl(Duration::from_secs(3));
    let dim = Request::new("x", "y", Some(serde_json::Value::from(10u64)));
    let bright = Request::new("x", "y", Some(serde_json::Value::from(90u64)));
    cache.insert_at(dim, "ten", 0);
    assert_eq!(cache.get_at(&bright, 1), Some(&"ten"));
    assert_eq!(cache.get_at(&Request::new("x", "z", None), 1), None);
    assert_eq!(cache.get_at(&Request::new("w", "y", None), 1), None);
}

#[test]
fn remove_returns_the_value() {
    let mut cache = three_seconds();
    cache.insert_at(key("a", "x"), 1, 0);
    cache.insert_at(key("a", "y"), 2, 0);
    assert_eq!(cache.remove(&key("a", "x")), Some(1));
    assert_eq!(cache.remove(&key("a", "x")), None);
    assert_eq!(cache.len(), 1);
    assert_eq!(cache.get_at(&key("a", "y"), 0), Some(&2));
}

#[test]
fn retain_keeps_what_the_predicate_accepts() {
    let mut cache = three_seconds();
    cache.insert_at(key("a", "x"), 1, 0);
    cache.insert_at(key("a", "y"), 2, 0);
    cache.insert_at(key("b", "x"), 3, 0);
    cache.insert_at(key("b", "y"), 4, 0);
    cache.retain(|_, value| value % 2 == 0);
    assert_eq!(cache.len(), 2);
    assert_eq!(cache.get_at(&key("a", "x"), 0), None);
    assert_eq!(cache.get_at(&key("a", "y"), 0), Some(&2));
    assert_eq!(cache.get_at(&key("b", "x"), 0), None);
    assert_eq!(cache.get_at(&key("b", "y"), 0), Some(&4));
}

#[test]
fn retain_with_false_clears() {
    let mut cache = three_seconds();
    cache.insert_at(key("a", "x"), 1, 0);
    cache.insert_at(key("b", "x"), 3, 0);
    cache.retain(|_, _| false);
    assert_eq!(cache.len(), 0);
}

#[test]
fn clear_keeps_the_counters() {
    let mut cache = three_seconds();
    cache.insert_at(key("a", "x"), 1, 0);
    assert_eq!(cache.get_at(&key("a", "x"), 0), Some(&1));
    assert_eq!(cache.get_at(&key("a", "z"), 0), None);
    cache.clear();
    assert_eq!(cache.len(), 0);
    assert_eq!(cache.hits(), Some(1));
    assert_eq!(cache.misses(), Some(1));
}

#[test]
fn invalidation_drops_one_namespace_only() {
    let mut cache = Some(Cache::with_ttl(Duration::from_secs(3)));
    if let Some(cache) = cache.as_mut() {
        cache.insert_at(key("a", "x"), serde_json::Value::from(1u64), 0);
        cache.insert_at(key("a", "y"), serde_json::Value::from(2u64), 0);
        cache.insert_at(key("b", "x"), serde_json::Value::from(3u64), 0);
        cache.insert_at(key("ab", "x"), serde_json::Value::from(4u64), 0);
    }
    invalidate(&mut cache, "a");
    let cache = cache.as_mut().unwrap();
    assert_eq!(cache.len(), 2);
    assert_eq!(cache.get_at(&key("a", "x"), 0), None);
    assert_eq!(cache.get_at(&key("a", "y"), 0), None);
    assert_eq!(cache.get_at(&key("b", "x"), 0), Some(&serde_json::Value::from(3u64)));
    assert_eq!(cache.get_at(&key("ab", "x"), 0), Some(&serde_json::Value::from(4u64)));
}

#[test]
fn invalidation_without_cache_does_nothing() {
    let mut cache = None;
    invalidate(&mut cache, "a");
    assert!(cache.is_none());
    invalidate_all(&mut cache);
    assert!(cache.is_none());
}

#[test]
fn invalidate_all_drops_everything() {
    let mut cache = Some(Cache::with_ttl(Duration::from_secs(3)));
    cache.as_mut().unwrap().insert_at(key("a", "x"), serde_json::Value::Null, 0);
    cache.as_mut().unwrap().insert_at(key("b", "x"), serde_json::Value::Null, 0);
    invalidate_all(&mut cache);
    assert_eq!(cache.as_ref().unwrap().len(), 0);
}

#[test]
fn read_through_asks_the_producer_once() {
    let mut cache: Cache<Request, u32> = Cache::with_ttl(Duration::from_secs(60));
    let calls = std::cell::Cell::new(0);
    let produce = |_: &Request| -> Result<u32, Error> {
        calls.set(calls.get() + 1);
        Ok(42)
    };
    assert_eq!(cache.get_or_insert_with(key("a", "x"), &produce).unwrap(), 42);
    assert_eq!(cache.get_or_insert_with(key("a", "x"), &produce).unwrap(), 42);
    assert_eq!(calls.get(), 1);
    assert_eq!(cache.len(), 1);
    assert_eq!(cache.hits(), Some(1));
    assert_eq!(cache.misses(), Some(1));
}

#[test]
fn read_through_hands_on_the_failure_and_stores_nothing() {
    let mut cache: Cache<Request, u32> = Cache::with_ttl(Duration::from_secs(60));
    let r = cache.get_or_insert_with(key("a", "x"), |_| {
        Err(tplink::error::unsupported_operation("nope"))
    });
    match r {
        Err(e) => assert_eq!(e.message(), "unsupported operation: nope"),
        Ok(_) => panic!("the producer failed"),
    }
    assert_eq!(cache.len(), 0);
    assert_eq!(cache.misses(), Some(1));
}

#[test]
fn clock_based_insert_and_get() {
    let mut cache: Cache<Request, u32> = Cache::with_ttl(Duration::from_secs(60));
    assert_eq!(cache.insert(key("a", "x"), 5), None);
    assert_eq!(cache.get(&key("a", "x")), Some(&5));
    assert_eq!(cache.insert(key("a", "x"), 6), Some(5));
    assert_eq!(cache.get(&key("a", "x")), Some(&6));
    let mut instant: Cache<Request, u32> = Cache::with_ttl(Duration::from_nanos(1));
    instant.insert(key("a", "x"), 5);
    let start = std::time::Instant::now();
    while start.elapsed() < Duration::from_millis(2) {}
    assert_eq!(instant.get(&key("a", "x")), None);
    assert_eq!(instant.len(), 0);
}

/// A key of the test's own: two numbers address the same entry when they
/// are equal modulo ten.
struct LastDigit(u32);

impl tplink::cache::CacheKey for LastDigit {
    type Id = u32;

    fn id(&self) -> u32 {
        self.0 % 10
    }

    fn same(&self, other: &Self) -> bool {
        self.0 % 10 == other.0 % 10
    }
}

#[test]
fn cache_works_with_any_key_that_says_what_it_is_found_by() {
    let mut cache: Cache<LastDigit, &'static str> = Cache::with_ttl(Duration::from_secs(1));
    assert_eq!(cache.insert_at(LastDigit(13), "three", 0), None);
    assert_eq!(cache.insert_at(LastDigit(4), "four", 0), None);
    assert_eq!(cache.get_at(&LastDigit(3), 1), Some(&"three"));
    assert_eq!(cache.insert_at(LastDigit(23), "again", 0), Some("three"));
    assert_eq!(cache.len(), 2);
    // retain sees the key that the entry was first stored under
    cache.retain(|key, _| key.0 == 13);
    assert_eq!(cache.len(), 1);
    assert_eq!(cache.get_at(&LastDigit(33), 1), Some(&"again"));
}

#[test]
fn read_through_at_given_readings() {
    let mut cache: Cache<Request, u32> = Cache::with_ttl(Duration::from_secs(3));
    let calls = std::cell::Cell::new(0u32);
    let produce = |_: &Request| -> Result<u32, Error> {
        calls.set(calls.get() + 1);
        Ok(calls.get())
    };
    assert_eq!(cache.get_or_insert_with_at(key("a", "x"), &produce, 0, SECOND).unwrap(), 1);
    // the age counts from the stamp, not from the lookup
    assert_eq!(cache.get_or_insert_with_at(key("a", "x"), &produce, 4 * SECOND - 1, 0).unwrap(), 1);
    assert_eq!(calls.get(), 1);
    assert_eq!(cache.get_or_insert_with_at(key("a", "x"), &produce, 4 * SECOND, 9 * SECOND).unwrap(), 2);
    assert_eq!(cache.get_at(&key("a", "x"), 12 * SECOND - 1), Some(&2));
    assert_eq!(cache.get_at(&key("a", "x"), 12 * SECOND), None);
    let failing = |_: &Request| -> Result<u32, Error> { Err(tplink::error::unsupported_operation("no")) };
    assert!(cache.get_or_insert_with_at(key("a", "x"), failing, 0, 0).is_err());
    assert_eq!(cache.len(), 0);
    assert_eq!(cache.hits(), Some(2));
    assert_eq!(cache.misses(), Some(4));
}
