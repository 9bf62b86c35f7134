//! Configuration options used to configure a device handle.
//!
//! The configuration consists of options that define how a handle
//! communicates with its device over the local network, and whether it
//! caches what the device says.

use vstd::prelude::*;
use std::time::Duration;
use crate::clock;
use crate::clock::duration_nanos;
use crate::proto::{Endpoint, Host, DEFAULT_BUFFER_SIZE, DEFAULT_PORT};

verus! {

/// The read and the write timeout of a handle that was given none, in
/// seconds.
pub const DEFAULT_TIMEOUT_SECS: u64 = 3;

/// Whether and how a handle caches responses.
#[derive(Debug, Copy, Clone)]
pub struct CacheConfig {
    pub enable_cache: bool,
    pub ttl: Option<Duration>,
    pub initial_capacity: Option<usize>,
}

/// The options of a [`ConfigBuilder`]: what was set, and `None` for what
/// was left to its default.
pub struct Options {
    pub host: Host,
    pub port: u16,
    pub read_timeout: Option<Duration>,
    pub write_timeout: Option<Duration>,
    pub cache_config: CacheConfig,
    pub buffer_size: Option<usize>,
}

/// The settings of a [`Config`].
pub struct Configured {
    pub addr: Endpoint,
    pub read_timeout: Duration,
    pub write_timeout: Duration,
    pub cache_config: CacheConfig,
    pub buffer_size: usize,
}

/// Configuration options used to configure a device handle.
#[derive(Debug)]
pub struct Config {
    addr: Endpoint,
    read_timeout: Duration,
    write_timeout: Duration,
    cache_config: CacheConfig,
    buffer_size: usize,
}

/// Builds a [`Config`] with custom configuration values.
///
/// Methods can be chained in order to set the configuration values. The
/// [`Config`] is constructed by calling [`ConfigBuilder::build`]. New
/// builders are obtained via [`Config::for_host`].
#[derive(Debug)]
pub struct ConfigBuilder {
    host: Host,
    port: u16,
    read_timeout: Option<Duration>,
    write_timeout: Option<Duration>,
    cache_config: CacheConfig,
    buffer_size: Option<usize>,
}

impl View for Config {
    type V = Configured;

    closed spec fn view(&self) -> Configured {
        Configured {
            addr: self.addr,
            read_timeout: self.read_timeout,
            write_timeout: self.write_timeout,
            cache_config: self.cache_config,
            buffer_size: self.buffer_size,
        }
    }
}

impl View for ConfigBuilder {
    type V = Options;

    closed spec fn view(&self) -> Options {
        Options {
            host: self.host,
            port: self.port,
            read_timeout: self.read_timeout,
            write_timeout: self.write_timeout,
            cache_config: self.cache_config,
            buffer_size: self.buffer_size,
        }
    }
}

/// Whether `timeout` is what a builder with the option `chosen` builds: the
/// chosen duration, or else one of the default number of seconds.
pub open spec fn timeout_built(timeout: Duration, chosen: Option<Duration>) -> bool {
    match chosen {
        Some(duration) => timeout == duration,
        None => duration_nanos(timeout) == DEFAULT_TIMEOUT_SECS * clock::NANOS_PER_SEC,
    }
}

/// Whether `config` is the configuration of a handle for the device at
/// `host` that was given no choices but, maybe, a cache with a time to live
/// of `cache_secs` seconds: the default port, timeouts and buffer size.
pub open spec fn default_for(config: Configured, host: Host, cache_secs: Option<u64>) -> bool {
    &&& config.addr == (Endpoint { host, port: DEFAULT_PORT })
    &&& timeout_built(config.read_timeout, None)
    &&& timeout_built(config.write_timeout, None)
    &&& config.buffer_size == DEFAULT_BUFFER_SIZE
    &&& config.cache_config.initial_capacity is None
    &&& match cache_secs {
        None => !config.cache_config.enable_cache && config.cache_config.ttl is None,
        Some(secs) => config.cache_config.enable_cache && (config.cache_config.ttl matches Some(
            ttl,
        ) && duration_nanos(ttl) == secs * clock::NANOS_PER_SEC),
    }
}

impl Default for CacheConfig {
    /// No cache.
    fn default() -> (config: CacheConfig)
        ensures
            !config.enable_cache,
            config.ttl is None,
            config.initial_capacity is None,
    {
        CacheConfig { enable_cache: false, ttl: None, initial_capacity: None }
    }
}

impl Config {
    /// Returns a new configuration [`ConfigBuilder`] for the given local
    /// address of the host device with all the default configurations
    /// specified: port 9999, no cache, and nothing else chosen.
    pub fn for_host(addr: Host) -> (builder: ConfigBuilder)
        ensures
            builder@.host == addr,
            builder@.port == DEFAULT_PORT,
            builder@.read_timeout is None,
            builder@.write_timeout is None,
            builder@.buffer_size is None,
            !builder@.cache_config.enable_cache,
            builder@.cache_config.ttl is None,
            builder@.cache_config.initial_capacity is None,
    {
        ConfigBuilder::new(addr)
    }

    /// Returns the configured local address of host device.
    pub fn addr(&self) -> (host: Host)
        ensures
            host == self@.addr.host,
    {
        self.addr.host
    }

    /// Returns the configured port number associated with the device's
    /// host address.
    pub fn port(&self) -> (port: u16)
        ensures
            port == self@.addr.port,
    {
        self.addr.port
    }

    /// Returns the configured read timeout for the device.
    pub fn read_timeout(&self) -> (timeout: Duration)
        ensures
            timeout == self@.read_timeout,
    {
        self.read_timeout
    }

    /// Returns the configured write timeout for the device.
    pub fn write_timeout(&self) -> (timeout: Duration)
        ensures
            timeout == self@.write_timeout,
    {
        self.write_timeout
    }

    /// Returns true if caching is enabled for the device, and false otherwise.
    pub fn cache_enabled(&self) -> (enabled: bool)
        ensures
            enabled == self@.cache_config.enable_cache,
    {
        self.cache_config.enable_cache
    }

    /// Returns the configured cache ttl (time-to-live) for the device if
    /// caching is enabled, and `None` otherwise.
    pub fn cache_ttl(&self) -> (ttl: Option<Duration>)
        ensures
            ttl == self@.cache_config.ttl,
    {
        self.cache_config.ttl
    }

    /// Returns the configured initial capacity for the cache if caching is
    /// enabled, and None otherwise.
    pub fn cache_initial_capacity(&self) -> (capacity: Option<usize>)
        ensures
            capacity == self@.cache_config.initial_capacity,
    {
        self.cache_config.initial_capacity
    }

    /// Returns the configured response buffer size for the device.
    pub fn buffer_size(&self) -> (size: usize)
        ensures
            size == self@.buffer_size,
    {
        self.buffer_size
    }
}

impl ConfigBuilder {
    /// Returns a new builder for the given local address of the host device
    /// with all the default configurations specified.
    fn new(addr: Host) -> (builder: ConfigBuilder)
        ensures
            builder@.host == addr,
            builder@.port == DEFAULT_PORT,
            builder@.read_timeout is None,
            builder@.write_timeout is None,
            builder@.buffer_size is None,
            !builder@.cache_config.enable_cache,
            builder@.cache_config.ttl is None,
            builder@.cache_config.initial_capacity is None,
    {
        ConfigBuilder {
            host: addr,
            port: DEFAULT_PORT,
            read_timeout: None,
            write_timeout: None,
            cache_config: CacheConfig::default(),
            buffer_size: None,
        }
    }

    /// Sets the port number associated with the device's host address.
    ///
    /// The default port used is 9999.
    pub fn with_port(&mut self, port: u16) -> (builder: &mut ConfigBuilder)
        ensures
            builder@ == (Options { port, ..old(self)@ }),
            final(self)@ == final(builder)@,
    {
        self.port = port;
        self
    }

    /// Sets the read timeout to the specified timeout duration.
    ///
    /// If not set, then the default read timeout used is 3 seconds.
    pub fn with_read_timeout(&mut self, duration: Duration) -> (builder: &mut ConfigBuilder)
        ensures
            builder@ == (Options { read_timeout: Some(duration), ..old(self)@ }),
            final(self)@ == final(builder)@,
    {
        self.read_timeout = Some(duration);
        self
    }

    /// Sets the write timeout to the specified timeout duration.
    ///
    /// If not set, then the default write timeout used is 3 seconds.
    pub fn with_write_timeout(&mut self, duration: Duration) -> (builder: &mut ConfigBuilder)
        ensures
            builder@ == (Options { write_timeout: Some(duration), ..old(self)@ }),
            final(self)@ == final(builder)@,
    {
        self.write_timeout = Some(duration);
        self
    }

    /// Enables caching device responses with the specified cache ttl
    /// (time-to-live) and initial cache capacity.
    ///
    /// By default, caching is disabled.
    pub fn with_cache_enabled(&mut self, ttl: Duration, initial_capacity: Option<usize>) -> (builder:
        &mut ConfigBuilder)
        ensures
            builder@ == (Options {
                cache_config: CacheConfig { enable_cache: true, ttl: Some(ttl), initial_capacity },
                ..old(self)@
            }),
            final(self)@ == final(builder)@,
    {
        self.cache_config = CacheConfig { enable_cache: true, ttl: Some(ttl), initial_capacity };
        self
    }

    /// Sets the device's response buffer size.
    ///
    /// The buffer size should be large enough to hold device's response
    /// bytes. A response that is too long to fit in the buffer is cut off,
    /// and the device then answers every request with an error.
    ///
    /// The default value used is 4096.
    pub fn with_buffer_size(&mut self, buffer_size: usize) -> (builder: &mut ConfigBuilder)
        ensures
            builder@ == (Options { buffer_size: Some(buffer_size), ..old(self)@ }),
            final(self)@ == final(builder)@,
    {
        self.buffer_size = Some(buffer_size);
        self
    }

    /// Creates a new configured [`Config`] instance: what was chosen, three
    /// seconds for a timeout that was not, and 4096 bytes for a buffer size
    /// that was not.
    pub fn build(&mut self) -> (config: Config)
        ensures
            final(self)@ == old(self)@,
            config@.addr == (Endpoint { host: old(self)@.host, port: old(self)@.port }),
            timeout_built(config@.read_timeout, old(self)@.read_timeout),
            timeout_built(config@.write_timeout, old(self)@.write_timeout),
            config@.cache_config == old(self)@.cache_config,
            config@.buffer_size == match old(self)@.buffer_size {
                Some(size) => size,
                None => DEFAULT_BUFFER_SIZE,
            },
    {
        let read_timeout = match self.read_timeout {
            Some(duration) => duration,
            None => clock::from_secs(DEFAULT_TIMEOUT_SECS),
        };
        let write_timeout = match self.write_timeout {
            Some(duration) => duration,
            None => clock::from_secs(DEFAULT_TIMEOUT_SECS),
        };
        let buffer_size = match self.buffer_size {
            Some(size) => size,
            None => DEFAULT_BUFFER_SIZE,
        };
        Config {
            addr: Endpoint { host: self.host, port: self.port },
            read_timeout,
            write_timeout,
            cache_config: self.cache_config,
            buffer_size,
        }
    }
}

} // verus!
