use std::time::Duration;
use tplink::config::{CacheConfig, Config};
use tplink::proto::Host;

#[test]
fn config_defaults() {
    let config = Config::for_host(Host::V4(0xC0A8_0164)).build();
    assert_eq!(config.addr(), Host::V4(0xC0A8_0164));
    assert_eq!(config.port(), 9999);
    assert_eq!(config.read_timeout(), Duration::from_secs(3));
    assert_eq!(config.write_timeout(), Duration::from_secs(3));
    assert_eq!(config.buffer_size(), 4096);
    assert!(!config.cache_enabled());
    assert_eq!(config.cache_ttl(), None);
    assert_eq!(config.cache_initial_capacity(), None);
}

#[test]
fn config_with_everything_chosen() {
    let config = Config::for_host(Host::V4(0xC0A8_0164))
        .with_port(9998)
        .with_read_timeout(Duration::from_secs(5))
        .with_write_timeout(Duration::from_millis(700))
        .with_cache_enabled(Duration::from_secs(3), Some(2 * 1024))
        .with_buffer_size(5 * 1024)
        .build();
    assert_eq!(config.port(), 9998);
    assert_eq!(config.read_timeout(), Duration::from_secs(5));
    assert_eq!(config.write_timeout(), Duration::from_millis(700));
    assert!(config.cache_enabled());
    assert_eq!(config.cache_ttl(), Some(Duration::from_secs(3)));
    assert_eq!(config.cache_initial_capacity(), Some(2 * 1024));
    assert_eq!(config.buffer_size(), 5 * 1024);
}

#[test]
fn cache_is_disabled_by_default() {
    let config = CacheConfig::default();
    assert!(!config.enable_cache);
    assert_eq!(config.ttl, None);
    assert_eq!(config.initial_capacity, None);
}

#[test]
fn cache_enabled_without_capacity() {
    let config = Config::for_host(Host::V6(1))
        .with_cache_enabled(Duration::from_secs(10), None)
        .build();
    assert_eq!(config.addr(), Host::V6(1));
    assert!(config.cache_enabled());
    assert_eq!(config.cache_ttl(), Some(Duration::from_secs(10)));
    assert_eq!(config.cache_initial_capacity(), None);
}
