use vstd::prelude::*;
use serde_json::Value;
use crate::error::Result;
use crate::proto::{Request, Socket};
use crate::json::Json;
use crate::transport::{as_answered, CachePolicy, Transport};

verus! {

/// The `SysInfo` trait represents devices that are capable of
/// returning their system information.
///
/// A device model says with [`SysInfo::informed`] what the command
/// guarantees; it is held to it. A model that says nothing guarantees
/// nothing.
pub trait SysInfo {
    /// The type of system information returned by the device.
    type Info;

    /// What holds of the device `self` and of the `answer` after the device
    /// `before` was asked for its system information.
    open spec fn informed(&self, before: &Self, answer: Result<Self::Info>) -> bool {
        true
    }

    /// Attempts to fetch the system information from the device.
    fn sysinfo(&mut self) -> (answer: Result<Self::Info>)
        ensures
            final(self).informed(old(self), answer),
    ;
}

/// The system information of a device, as the device reports it.
pub struct SystemInfo {}

impl SystemInfo {
    /// The system information command.
    pub fn new() -> SystemInfo {
        SystemInfo {  }
    }

    /// The system information of the device as the device reports it, from
    /// the cache while it is valid there.
    pub fn get_sysinfo<S: Socket>(&self, transport: &mut Transport<S>) -> (r: Result<Value>)
        ensures
            final(transport).executed(
                old(transport),
                CachePolicy::ReadThrough,
                "system"@,
                "get_sysinfo"@,
                Json::Null,
                |answer: Result<Value>, told: Result<Value>| as_answered(answer, told),
                r,
            ),
            r matches Err(e) ==> e.is_io() || e.is_json(),
    {
        let request = Request::new("system", "get_sysinfo", None);
        match transport.execute(request, CachePolicy::ReadThrough) {
            Ok(response) => Ok(response),
            Err(e) => Err(e),
        }
    }
}

} // verus!
