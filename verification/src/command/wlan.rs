use vstd::prelude::*;
use vstd::string::StringExecFns;
use serde_json::Value;
use std::time::Duration;
use crate::clock;
use crate::clock::duration_secs;
use crate::error::Result;
use crate::fields::{array_at, array_field, text_at, text_field, u32_at, u32_field};
use crate::json;
use crate::json::{empty_object, json_of, Json};
use crate::proto::{Request, Socket};
use crate::transport::{CachePolicy, Transport};

verus! {

/// The `Wlan` trait represents devices that can scan for wireless networks.
///
/// A device model says with [`Wlan::scanned`] what the command guarantees;
/// it is held to it. A model that says nothing guarantees nothing.
pub trait Wlan {
    /// What holds of the device `self` and of the `answer` after the device
    /// `before` was asked to scan.
    open spec fn scanned(
        &self,
        before: &Self,
        refresh: bool,
        timeout: Option<Duration>,
        answer: Result<Vec<AccessPoint>>,
    ) -> bool {
        true
    }

    fn get_scan_info(&mut self, refresh: bool, timeout: Option<Duration>) -> (answer: Result<
        Vec<AccessPoint>,
    >)
        ensures
            final(self).scanned(old(self), refresh, timeout, answer),
    ;
}

/// A wireless network that a device sees.
#[derive(Debug)]
pub struct AccessPoint {
    pub ssid: String,
    pub key_type: u32,
}

impl AccessPoint {
    /// Whether `document` can be read as an access point.
    pub open spec fn readable(document: Json) -> bool {
        text_at(document, "ssid"@) is Some && u32_at(document, "key_type"@) is Some
    }

    /// Whether `self` is the access point that `document` holds.
    pub open spec fn describes(&self, document: Json) -> bool {
        text_at(document, "ssid"@) == Some(self.ssid@) && u32_at(document, "key_type"@) == Some(
            self.key_type,
        )
    }

    /// Reads one access point.
    pub fn from_json(value: &Value) -> (r: Result<AccessPoint>)
        ensures
            match r {
                Ok(ap) => ap.describes(json_of(*value)),
                Err(e) => !AccessPoint::readable(json_of(*value)) && e.is_unexpected(),
            },
    {
        let ssid = match text_field(value, "ssid") {
            Ok(s) => s,
            Err(e) => {
                return Err(e);
            },
        };
        let key_type = match u32_field(value, "key_type") {
            Ok(n) => n,
            Err(e) => {
                return Err(e);
            },
        };
        Ok(AccessPoint { ssid, key_type })
    }

    /// The name of the network.
    pub fn ssid(&self) -> (ssid: &str)
        ensures
            ssid@ == self.ssid@,
    {
        self.ssid.as_str()
    }

    /// The kind of key that the network asks for.
    pub fn key_type(&self) -> (key_type: u32)
        ensures
            key_type == self.key_type,
    {
        self.key_type
    }
}

/// Whether `list` holds the access points of the scan result `document`,
/// in the same order.
pub open spec fn scan_result(list: Seq<AccessPoint>, document: Json) -> bool {
    match array_at(document, "ap_list"@) {
        Some(items) => list.len() == items.len() && forall|i: int|
            0 <= i < list.len() ==> (#[trigger] list[i]).describes(items[i]),
        None => false,
    }
}

/// Whether `document` can be read as a scan result.
pub open spec fn scan_readable(document: Json) -> bool {
    match array_at(document, "ap_list"@) {
        Some(items) => forall|i: int|
            0 <= i < items.len() ==> AccessPoint::readable(#[trigger] items[i]),
        None => false,
    }
}

/// Reads the access points out of a scan result.
pub fn access_points(value: &Value) -> (r: Result<Vec<AccessPoint>>)
    ensures
        match r {
            Ok(list) => scan_result(list@, json_of(*value)),
            Err(e) => !scan_readable(json_of(*value)) && e.is_unexpected(),
        },
{
    let items = match array_field(value, "ap_list") {
        Ok(items) => items,
        Err(e) => {
            return Err(e);
        },
    };
    let ghost documents = array_at(json_of(*value), "ap_list"@).unwrap();
    let mut list: Vec<AccessPoint> = Vec::new();
    let mut i: usize = 0;
    while i < items.len()
        invariant
            i <= items@.len(),
            array_at(json_of(*value), "ap_list"@) == Some(documents),
            documents == Seq::new(items@.len(), |k: int| json_of(items@[k])),
            list@.len() == i,
            forall|k: int| 0 <= k < i ==> (#[trigger] list@[k]).describes(documents[k]),
        decreases items@.len() - i,
    {
        match AccessPoint::from_json(&items[i]) {
            Ok(ap) => {
                list.push(ap);
            },
            Err(e) => {
                proof {
                    let listed = array_at(json_of(*value), "ap_list"@)->Some_0;
                    assert(!AccessPoint::readable(listed[i as int]));
                }
                return Err(e);
            },
        }
        i += 1;
    }
    Ok(list)
}

/// The scan timeout that the device is asked with, in whole seconds: that
/// of `timeout`, or else the read timeout of the exchange, or else three.
pub open spec fn scan_timeout_secs(timeout: Option<Duration>, read_timeout: Option<Duration>) -> nat {
    match timeout {
        Some(duration) => duration_secs(duration),
        None => match read_timeout {
            Some(duration) => duration_secs(duration),
            None => 3,
        },
    }
}

/// The argument of a scan: `{"refresh": 0 or 1, "timeout": <seconds>}`.
pub open spec fn scan_document(
    refresh: bool,
    timeout: Option<Duration>,
    read_timeout: Option<Duration>,
) -> Json {
    empty_object().with(
        "refresh"@,
        Json::Int(
            if refresh {
                1
            } else {
                0
            },
        ),
    ).with("timeout"@, Json::Int(scan_timeout_secs(timeout, read_timeout) as int))
}

/// Whether `list` is what reading access points out of the `answer` of the
/// device gives: the access points that the answer holds, or the error of
/// the exchange, or a serialization error for an answer that holds none.
pub open spec fn scan_read(answer: Result<Value>, list: Result<Vec<AccessPoint>>) -> bool {
    match answer {
        Err(e) => list matches Err(failed) && failed == e,
        Ok(value) => match list {
            Ok(found) => scan_result(found@, json_of(value)),
            Err(e) => !scan_readable(json_of(value)) && e.is_unexpected(),
        },
    }
}

/// The argument of a scan: `{"refresh": 0 or 1, "timeout": <seconds>}`.
pub fn scan_argument(refresh: bool, timeout: Option<Duration>, read_timeout: Option<Duration>) -> (arg:
    Value)
    ensures
        json_of(arg) == scan_document(refresh, timeout, read_timeout),
{
    let refresh: u64 = if refresh {
        1
    } else {
        0
    };
    let timeout = match timeout {
        Some(duration) => clock::as_secs(&duration),
        None => match read_timeout {
            Some(duration) => clock::as_secs(&duration),
            None => 3,
        },
    };
    let mut arg = json::new_object();
    json::set_member(&mut arg, "refresh", json::from_u64(refresh));
    json::set_member(&mut arg, "timeout", json::from_u64(timeout));
    arg
}

/// The network interface commands of a device.
pub struct Netif {
    ns: String,
}

impl Netif {
    /// The namespace that the commands are addressed to.
    pub closed spec fn namespace(&self) -> Seq<char> {
        self.ns@
    }

    /// The network interface commands, in the namespace `netif`.
    pub fn new() -> (netif: Netif)
        ensures
            netif.namespace() == "netif"@,
    {
        Netif { ns: String::from_str("netif") }
    }

    /// Asks the device to scan for wireless networks. The cache is left
    /// alone. Where no scan timeout is given, the read timeout of the
    /// exchange is asked for, or else three seconds. A device that scans
    /// for longer than the read timeout leaves the exchange to time out.
    pub fn get_scan_info<S: Socket>(
        &self,
        transport: &mut Transport<S>,
        refresh: bool,
        timeout: Option<Duration>,
    ) -> (r: Result<Vec<AccessPoint>>)
        ensures
            final(transport).executed(
                old(transport),
                CachePolicy::Uncached,
                self.namespace(),
                "get_scaninfo"@,
                scan_document(refresh, timeout, old(transport).settings()@.read_timeout),
                |answer: Result<Value>, told: Result<Vec<AccessPoint>>| scan_read(answer, told),
                r,
            ),
            r matches Err(e) ==> e.is_io() || e.is_json(),
    {
        let arg = scan_argument(refresh, timeout, transport.proto().read_timeout());
        let request = Request::new(self.ns.as_str(), "get_scaninfo", Some(arg));
        match transport.execute(request, CachePolicy::Uncached) {
            Ok(response) => access_points(&response),
            Err(e) => Err(e),
        }
    }
}

} // verus!
