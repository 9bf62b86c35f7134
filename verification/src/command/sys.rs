use vstd::prelude::*;
use vstd::string::StringExecFns;
use serde_json::Value;
use std::time::Duration;
use crate::clock;
use crate::clock::duration_secs;
use crate::error::Result;
use crate::fields::singleton;
use crate::json;
use crate::json::{empty_object, json_of, Json};
use crate::proto::{Request, Socket};
use crate::transport::{acknowledged, CachePolicy, Transport};

verus! {

/// The `Sys` trait represents devices that are capable of performing
/// system commands.
///
/// A device model says with [`Sys::restarted`] what the two commands
/// guarantee; they are held to it. A model that says nothing guarantees
/// nothing.
pub trait Sys {
    /// What holds of the device `self` and of the `answer` after the device
    /// `before` was asked to reboot, or to reset to its factory settings.
    open spec fn restarted(
        &self,
        before: &Self,
        factory_reset: bool,
        delay: Option<Duration>,
        answer: Result<()>,
    ) -> bool {
        true
    }

    /// Reboots the device after the given duration. In case when the duration
    /// isn't provided, the device is set to reboot after a default duration
    /// of 1 second.
    fn reboot(&mut self, delay: Option<Duration>) -> (answer: Result<()>)
        ensures
            final(self).restarted(old(self), false, delay, answer),
    ;

    /// Factory resets the device after the given duration. In case when the
    /// duration isn't provided, the device is set to reset after a default duration
    /// of 1 second.
    fn factory_reset(&mut self, delay: Option<Duration>) -> (answer: Result<()>)
        ensures
            final(self).restarted(old(self), true, delay, answer),
    ;
}

/// The delay that a reboot or a reset is asked with, in whole seconds: that
/// of `delay`, or one second.
pub open spec fn delay_secs(delay: Option<Duration>) -> nat {
    match delay {
        Some(duration) => duration_secs(duration),
        None => 1,
    }
}

/// The argument of a reboot or a reset: `{"delay": <seconds>}`.
pub open spec fn delay_document(delay: Option<Duration>) -> Json {
    empty_object().with("delay"@, Json::Int(delay_secs(delay) as int))
}

/// The argument of a reboot or a reset: `{"delay": <seconds>}`.
pub fn delay_argument(delay: Option<Duration>) -> (arg: Value)
    ensures
        json_of(arg) == delay_document(delay),
{
    let secs = match delay {
        Some(duration) => clock::as_secs(&duration),
        None => 1,
    };
    singleton("delay", json::from_u64(secs))
}

/// The system commands of a device.
pub struct System {
    ns: String,
}

impl System {
    /// The namespace that the commands are addressed to.
    pub closed spec fn namespace(&self) -> Seq<char> {
        self.ns@
    }

    /// The system commands in the namespace `ns`.
    pub fn new(ns: &str) -> (system: System)
        ensures
            system.namespace() == ns@,
    {
        System { ns: String::from_str(ns) }
    }

    /// Asks the device to reboot after `delay`, or after one second. Everything
    /// cached is dropped first, whether or not the device is then reached.
    pub fn reboot<S: Socket>(
        &self,
        transport: &mut Transport<S>,
        delay: Option<Duration>,
    ) -> (r: Result<()>)
        ensures
            final(transport).executed(
                old(transport),
                CachePolicy::InvalidateAll,
                self.namespace(),
                "reboot"@,
                delay_document(delay),
                |answer: Result<Value>, told: Result<()>| acknowledged(answer, told),
                r,
            ),
            r matches Err(e) ==> e.is_io() || e.is_json(),
    {
        let request = Request::new(self.ns.as_str(), "reboot", Some(delay_argument(delay)));
        match transport.execute(request, CachePolicy::InvalidateAll) {
            Ok(response) => Ok(()),
            Err(e) => Err(e),
        }
    }

    /// Asks the device to reset to its factory settings after `delay`, or after
    /// one second. Everything cached is dropped first, whether or not the device
    /// is then reached.
    pub fn reset<S: Socket>(
        &self,
        transport: &mut Transport<S>,
        delay: Option<Duration>,
    ) -> (r: Result<()>)
        ensures
            final(transport).executed(
                old(transport),
                CachePolicy::InvalidateAll,
                self.namespace(),
                "reset"@,
                delay_document(delay),
                |answer: Result<Value>, told: Result<()>| acknowledged(answer, told),
                r,
            ),
            r matches Err(e) ==> e.is_io() || e.is_json(),
    {
        let request = Request::new(self.ns.as_str(), "reset", Some(delay_argument(delay)));
        match transport.execute(request, CachePolicy::InvalidateAll) {
            Ok(response) => Ok(()),
            Err(e) => Err(e),
        }
    }
}

} // verus!
