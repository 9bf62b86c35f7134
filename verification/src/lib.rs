//! Client-side protocol layer for LAN smart-home devices that speak an
//! obfuscated JSON-over-UDP protocol: the byte cipher, the response cache,
//! the request/reply exchange and the discovery sweep, with the device
//! handles built on top of them.
//!
//! The library decides and computes; it opens no socket. A device handle
//! works over a [`proto::Socket`] that its owner provides, and a discovery
//! sweep is driven by its owner through [`discover::Sweep`].

pub mod bulb;
pub mod cache;
pub mod clock;
pub mod command;
pub mod config;
pub mod crypto;
pub mod discover;
pub mod error;
pub mod fields;
pub mod json;
pub mod plug;
pub mod proto;
pub mod transport;
pub mod util;

pub use self::bulb::Bulb;
pub use self::command::{cloud, device, emeter, sys, sysinfo, time, wlan};
pub use self::config::Config;
pub use self::discover::{discover, DeviceKind};
pub use self::error::{Error, ErrorKind, Result};
pub use self::plug::{timer, Plug};
