//! What a device can be asked, one capability at a time.

pub mod cloud;
pub mod device;
pub mod emeter;
pub mod sys;
pub mod sysinfo;
pub mod time;
pub mod wlan;

pub use self::cloud::Cloud;
pub use self::device::Device;
pub use self::emeter::Emeter;
pub use self::sys::Sys;
pub use self::sysinfo::SysInfo;
pub use self::time::Time;
pub use self::wlan::Wlan;
