use vstd::prelude::*;
use vstd::string::StringExecFns;
use vstd::string::StringSliceAdditionalSpecFns;
use vstd::utf8::encode_utf8;
use serde_json::Value;
use std::time::Duration;
use crate::command::cloud::{
    cloud_read,
    credentials_document,
    firmware_read,
    server_document,
    Cloud,
    CloudInfo,
    CloudSettings,
};
use crate::command::device::Device;
use crate::command::emeter::{
    day_stats_plan,
    day_stats_request,
    days_read,
    month_stats_document,
    months_read,
    realtime_read,
    require_emeter,
    DayStats,
    Emeter,
    EmeterStats,
    MonthStats,
    RealtimeStats,
};
use crate::command::sys::{delay_document, Sys, System};
use crate::command::sysinfo::{SysInfo, SystemInfo};
use crate::command::time::{
    time_read,
    timezone_read,
    DeviceTime,
    DeviceTimeZone,
    Time,
    TimeSettings,
};
use crate::command::wlan::{scan_document, scan_read, AccessPoint, Netif, Wlan};
use crate::config::{default_for, Config};
use crate::error;
use crate::error::{picked, refuses, Result};
use crate::fields::{i64_at, i64_field, singleton, text_at, text_field, u64_at, u64_field};
use crate::json;
use crate::json::{empty_object, json_of, Json};
use crate::plug::timer::{
    rule_id_document,
    rule_id_read,
    rules_read,
    Rule,
    RuleList,
    Timer,
    TimerSettings,
};
use crate::proto::{Host, Request, Socket};
use crate::transport::{acknowledged, permit, CachePolicy, Plan, Transport};
use crate::util::{contains, occurs_in};

verus! {

/// The location coordinates of the device.
#[derive(Clone, Copy, Debug, PartialEq, Eq, Structural)]
pub struct Location {
    pub longitude: i64,
    pub latitude: i64,
}

impl Location {
    /// The text `(<latitude>, <longitude>)`: both in decimal, with a sign if negative.
    pub fn to_text(&self) -> (text: String)
        ensures
            text@ == "("@ + crate::util::signed_decimal(self.latitude as int) + ", "@
                + crate::util::signed_decimal(self.longitude as int) + ")"@,
    {
        String::from_str("(").concat(
            crate::util::signed_decimal_text(self.latitude).as_str(),
        ).concat(", ").concat(crate::util::signed_decimal_text(self.longitude).as_str()).concat(
            ")",
        )
    }
}

/// The system information of a smart plug.
#[derive(Debug)]
pub struct HS100Info {
    pub sw_ver: String,
    pub hw_ver: String,
    pub model: String,
    pub device_type: String,
    pub mac: String,
    pub alias: String,
    pub relay_state: u64,
    pub rssi: i64,
    pub location: Location,
    pub led_off: u64,
    pub feature: String,
}

impl HS100Info {
    /// Whether `self` is the system information that `document` holds.
    pub open spec fn describes(&self, document: Json) -> bool {
        &&& text_at(document, "sw_ver"@) == Some(self.sw_ver@)
        &&& text_at(document, "hw_ver"@) == Some(self.hw_ver@)
        &&& text_at(document, "model"@) == Some(self.model@)
        &&& text_at(document, "type"@) == Some(self.device_type@)
        &&& text_at(document, "mac"@) == Some(self.mac@)
        &&& text_at(document, "alias"@) == Some(self.alias@)
        &&& u64_at(document, "relay_state"@) == Some(self.relay_state)
        &&& i64_at(document, "rssi"@) == Some(self.rssi)
        &&& i64_at(document, "longitude_i"@) == Some(self.location.longitude)
        &&& i64_at(document, "latitude_i"@) == Some(self.location.latitude)
        &&& u64_at(document, "led_off"@) == Some(self.led_off)
        &&& text_at(document, "feature"@) == Some(self.feature@)
    }

    /// Whether `document` can be read as the system information of a plug.
    pub open spec fn readable(document: Json) -> bool {
        &&& text_at(document, "sw_ver"@) is Some
        &&& text_at(document, "hw_ver"@) is Some
        &&& text_at(document, "model"@) is Some
        &&& text_at(document, "type"@) is Some
        &&& text_at(document, "mac"@) is Some
        &&& text_at(document, "alias"@) is Some
        &&& u64_at(document, "relay_state"@) is Some
        &&& i64_at(document, "rssi"@) is Some
        &&& i64_at(document, "longitude_i"@) is Some
        &&& i64_at(document, "latitude_i"@) is Some
        &&& u64_at(document, "led_off"@) is Some
        &&& text_at(document, "feature"@) is Some
    }

    /// Reads the system information of a plug out of a reply.
    pub fn from_json(value: &Value) -> (r: Result<HS100Info>)
        ensures
            match r {
                Ok(info) => info.describes(json_of(*value)),
                Err(e) => !HS100Info::readable(json_of(*value)) && e.is_unexpected(),
            },
    {
        let sw_ver = match text_field(value, "sw_ver") {
            Ok(s) => s,
            Err(e) => {
                return Err(e);
            },
        };
        let hw_ver = match text_field(value, "hw_ver") {
            Ok(s) => s,
            Err(e) => {
                return Err(e);
            },
        };
        let model = match text_field(value, "model") {
            Ok(s) => s,
            Err(e) => {
                return Err(e);
            },
        };
        let device_type = match text_field(value, "type") {
            Ok(s) => s,
            Err(e) => {
                return Err(e);
            },
        };
        let mac = match text_field(value, "mac") {
            Ok(s) => s,
            Err(e) => {
                return Err(e);
            },
        };
        let alias = match text_field(value, "alias") {
            Ok(s) => s,
            Err(e) => {
                return Err(e);
            },
        };
        let relay_state = match u64_field(value, "relay_state") {
            Ok(n) => n,
            Err(e) => {
                return Err(e);
            },
        };
        let rssi = match i64_field(value, "rssi") {
            Ok(n) => n,
            Err(e) => {
                return Err(e);
            },
        };
        let longitude = match i64_field(value, "longitude_i") {
            Ok(n) => n,
            Err(e) => {
                return Err(e);
            },
        };
        let latitude = match i64_field(value, "latitude_i") {
            Ok(n) => n,
            Err(e) => {
                return Err(e);
            },
        };
        let led_off = match u64_field(value, "led_off") {
            Ok(n) => n,
            Err(e) => {
                return Err(e);
            },
        };
        let feature = match text_field(value, "feature") {
            Ok(s) => s,
            Err(e) => {
                return Err(e);
            },
        };
        Ok(
            HS100Info {
                sw_ver,
                hw_ver,
                model,
                device_type,
                mac,
                alias,
                relay_state,
                rssi,
                location: Location { longitude, latitude },
                led_off,
                feature,
            },
        )
    }

    /// Returns the software version of the device.
    pub fn sw_ver(&self) -> (sw_ver: &str)
        ensures
            sw_ver@ == self.sw_ver@,
    {
        self.sw_ver.as_str()
    }

    /// Returns the hardware version of the device.
    pub fn hw_ver(&self) -> (hw_ver: &str)
        ensures
            hw_ver@ == self.hw_ver@,
    {
        self.hw_ver.as_str()
    }

    /// Returns the model of the device.
    pub fn model(&self) -> (model: &str)
        ensures
            model@ == self.model@,
    {
        self.model.as_str()
    }

    /// Returns the name (alias) of the device.
    pub fn alias(&self) -> (alias: &str)
        ensures
            alias@ == self.alias@,
    {
        self.alias.as_str()
    }

    /// Returns the type that the device reports of itself.
    pub fn device_type(&self) -> (device_type: &str)
        ensures
            device_type@ == self.device_type@,
    {
        self.device_type.as_str()
    }

    /// Returns the mac address of the device.
    pub fn mac_address(&self) -> (mac: &str)
        ensures
            mac@ == self.mac@,
    {
        self.mac.as_str()
    }

    /// Returns the Wi-Fi signal strength (rssi) of the device.
    pub fn rssi(&self) -> (rssi: i64)
        ensures
            rssi == self.rssi,
    {
        self.rssi
    }

    /// Returns the location of the device.
    pub fn location(&self) -> (location: &Location)
        ensures
            *location == self.location,
    {
        &self.location
    }

    /// Whether the plug meters energy: whether its features name `ENE`.
    pub open spec fn meters(&self) -> bool {
        occurs_in("ENE".spec_bytes(), encode_utf8(self.feature@))
    }

    /// Returns whether the device supports emeter stats: whether its
    /// features name `ENE`.
    pub fn has_emeter(&self) -> (has: bool)
        ensures
            has == self.meters(),
    {
        contains(self.feature.as_str(), "ENE")
    }

    /// Returns whether the device is on.
    pub fn is_on(&self) -> (on: bool)
        ensures
            on == (self.relay_state == 1),
    {
        self.relay_state == 1
    }

    /// Returns whether the device LED is on.
    pub fn is_led_on(&self) -> (on: bool)
        ensures
            on == (self.led_off == 0),
    {
        self.led_off == 0
    }
}

/// What a plug is asked about a new rule: the timer table holds one rule at
/// most, so adding to a table that holds one is not supported.
pub open spec fn add_rule_plan(rules: RuleList, rule: Rule) -> Plan {
    permit(rules.rule_list@.len() == 0, rule.argument())
}

/// Whether a rule may be added to a timer table that holds `rules`: the
/// table holds one rule at most.
pub fn require_room(rules: &RuleList) -> (r: Result<()>)
    ensures
        match r {
            Ok(_) => rules.rule_list@.len() == 0,
            Err(e) => rules.rule_list@.len() > 0 && e.is_unsupported(),
        },
{
    if rules.is_empty() {
        Ok(())
    } else {
        Err(error::unsupported_operation("add_timer_rule: table is full"))
    }
}

/// The argument that switches the LED: `{"off": <bool>}`.
pub open spec fn led_document(off: bool) -> Json {
    empty_object().with("off"@, Json::Bool(off))
}

/// The argument that switches the LED: `{"off": <bool>}`.
pub fn led_argument(off: bool) -> (arg: Value)
    ensures
        json_of(arg) == led_document(off),
{
    singleton("off", json::from_bool(off))
}

/// The argument that switches the relay: `{"state": 1}` for on and
/// `{"state": 0}` for off.
pub open spec fn relay_document(on: bool) -> Json {
    empty_object().with(
        "state"@,
        Json::Int(
            if on {
                1
            } else {
                0
            },
        ),
    )
}

/// The argument that switches the relay: `{"state": 0 or 1}`.
pub fn relay_argument(on: bool) -> (arg: Value)
    ensures
        json_of(arg) == relay_document(on),
{
    let state: u64 = if on {
        1
    } else {
        0
    };
    singleton("state", json::from_u64(state))
}

/// Whether `info` is what reading system information out of the `answer`
/// of the plug gives: the information that the answer holds, or the error of
/// the exchange, or a serialization error for an answer that holds none.
pub open spec fn plug_info_read(answer: Result<Value>, info: Result<HS100Info>) -> bool {
    match answer {
        Err(e) => info matches Err(failed) && failed == e,
        Ok(value) => match info {
            Ok(found) => found.describes(json_of(value)),
            Err(e) => !HS100Info::readable(json_of(value)) && e.is_unexpected(),
        },
    }
}

/// A Wi-Fi smart plug.
pub struct HS100<S: Socket> {
    transport: Transport<S>,
    system: System,
    time_settings: TimeSettings,
    timer_settings: TimerSettings,
    cloud_settings: CloudSettings,
    emeter: EmeterStats,
    netif: Netif,
    sysinfo: SystemInfo,
}

impl<S: Socket> HS100<S> {
    /// The transport of the handle.
    pub closed spec fn transport(&self) -> Transport<S> {
        self.transport
    }

    /// The namespace of the system commands.
    pub closed spec fn system_namespace(&self) -> Seq<char> {
        self.system.namespace()
    }

    /// The namespace of the time commands.
    pub closed spec fn time_namespace(&self) -> Seq<char> {
        self.time_settings.namespace()
    }

    /// The namespace of the timer commands.
    pub closed spec fn timer_namespace(&self) -> Seq<char> {
        self.timer_settings.namespace()
    }

    /// The namespace of the cloud commands.
    pub closed spec fn cloud_namespace(&self) -> Seq<char> {
        self.cloud_settings.namespace()
    }

    /// The namespace of the network interface commands.
    pub closed spec fn netif_namespace(&self) -> Seq<char> {
        self.netif.namespace()
    }

    /// The namespace of the energy meter commands.
    pub closed spec fn emeter_namespace(&self) -> Seq<char> {
        self.emeter.namespace()
    }

    /// Whether the handle addresses each of its commands to the namespace
    /// that a plug has for it.
    pub open spec fn namespaces_set(&self) -> bool {
        &&& self.system_namespace() == "system"@
        &&& self.time_namespace() == "time"@
        &&& self.timer_namespace() == "count_down"@
        &&& self.cloud_namespace() == "cnCloud"@
        &&& self.emeter_namespace() == "emeter"@
        &&& self.netif_namespace() == "netif"@
    }

    /// Whether `self` and `other` are handles of the same device that
    /// differ at most in what they have cached.
    pub closed spec fn same_handle(&self, other: &Self) -> bool {
        &&& self.transport.same_device(&other.transport)
        &&& self.system == other.system
        &&& self.time_settings == other.time_settings
        &&& self.timer_settings == other.timer_settings
        &&& self.cloud_settings == other.cloud_settings
        &&& self.emeter == other.emeter
        &&& self.netif == other.netif
    }

    /// Handles of the same device address their commands alike.
    pub proof fn lemma_same_handle(&self, other: &Self)
        requires
            self.same_handle(other),
        ensures
            self.system_namespace() == other.system_namespace(),
            self.time_namespace() == other.time_namespace(),
            self.timer_namespace() == other.timer_namespace(),
            self.cloud_namespace() == other.cloud_namespace(),
            self.netif_namespace() == other.netif_namespace(),
            self.emeter_namespace() == other.emeter_namespace(),
            self.transport().same_device(&other.transport()),
    {
    }

    /// Whether `self` is the handle `other` with nothing changed, the cache
    /// included.
    pub open spec fn untouched(&self, other: &Self) -> bool {
        &&& self.same_handle(other)
        &&& self.transport().response_cache() == other.transport().response_cache()
    }

    /// Whether `told` is what a command makes of executing
    /// `[target][command]` with `argument` under `policy` on the handle
    /// `before`, and `self` the handle that is left. See
    /// [`Transport::executed`].
    pub open spec fn ran<T>(
        &self,
        before: &Self,
        policy: CachePolicy,
        target: Seq<char>,
        command: Seq<char>,
        argument: Json,
        read: spec_fn(Result<Value>, Result<T>) -> bool,
        told: Result<T>,
    ) -> bool {
        &&& self.same_handle(before)
        &&& self.transport().executed(
            &before.transport(),
            policy,
            target,
            command,
            argument,
            read,
            told,
        )
    }

    /// Whether `told` is what a command makes of its `plan`: where the plan
    /// refuses, nothing is sent, nothing changes and the refusal is the
    /// error; else the command is executed with the planned argument.
    pub open spec fn ran_plan<T>(
        &self,
        before: &Self,
        plan: Plan,
        policy: CachePolicy,
        target: Seq<char>,
        command: Seq<char>,
        read: spec_fn(Result<Value>, Result<T>) -> bool,
        told: Result<T>,
    ) -> bool {
        match plan {
            Err(refusal) => self.untouched(before) && (told matches Err(e) && refuses(refusal, e)),
            Ok(argument) => self.ran(before, policy, target, command, argument, read, told),
        }
    }

    /// Whether `done` is what a command of the system namespace that
    /// changes the plug makes of the handle `before`: what is cached of that
    /// namespace is dropped, and the plug is asked.
    pub open spec fn system_changed(
        &self,
        before: &Self,
        command: Seq<char>,
        argument: Json,
        done: Result<()>,
    ) -> bool {
        self.ran(
            before,
            CachePolicy::InvalidateNamespace,
            "system"@,
            command,
            argument,
            |answer: Result<Value>, told: Result<()>| acknowledged(answer, told),
            done,
        )
    }

    /// Whether `info` is what asking the handle `before` for the system
    /// information of its plug may give, and `self` the handle that is left:
    /// `system`/`get_sysinfo` was read through the cache.
    pub open spec fn asked_info(&self, before: &Self, info: Result<HS100Info>) -> bool {
        self.ran(
            before,
            CachePolicy::ReadThrough,
            "system"@,
            "get_sysinfo"@,
            Json::Null,
            |answer: Result<Value>, told: Result<HS100Info>| plug_info_read(answer, told),
            info,
        )
    }

    /// Whether `told` is what a command gives that first asks for the
    /// system information and then goes on as `then` says, given the handle
    /// that the first step left and the information. Where the first step
    /// fails, its error is the result and nothing more happens.
    pub open spec fn informed_then<T>(
        &self,
        before: &Self,
        told: Result<T>,
        then: spec_fn(Self, HS100Info) -> bool,
    ) -> bool {
        exists|mid: Self, whole: Result<HS100Info>| #[trigger]
            mid.asked_info(before, whole) && match whole {
                Err(e) => self.untouched(&mid) && (told matches Err(failed) && failed == e),
                Ok(info) => then(mid, info),
            }
    }

    /// Whether `told` is the part `pick` of the system information that the
    /// handle `before` was asked for.
    pub open spec fn told_of_info<T>(
        &self,
        before: &Self,
        told: Result<T>,
        pick: spec_fn(HS100Info) -> T,
    ) -> bool {
        exists|whole: Result<HS100Info>| #[trigger]
            self.asked_info(before, whole) && picked(whole, told, pick)
    }

    /// A handle for the plug that `config` describes, over `socket`.
    pub fn with_config(config: Config, socket: S) -> (plug: HS100<S>)
        ensures
            plug.namespaces_set(),
            plug.transport().built_from(config),
    {
        let transport = Transport::with_config(&config, socket);
        HS100 {
            transport,
            system: System::new("system"),
            time_settings: TimeSettings::new("time"),
            timer_settings: TimerSettings::new("count_down"),
            cloud_settings: CloudSettings::new("cnCloud"),
            emeter: EmeterStats::new("emeter"),
            netif: Netif::new(),
            sysinfo: SystemInfo::new(),
        }
    }

    /// A handle for the plug at `host`, over `socket`: the default port,
    /// timeouts and buffer size, and no cache.
    pub fn new(host: Host, socket: S) -> (plug: HS100<S>)
        ensures
            plug.namespaces_set(),
            exists|config: Config| #[trigger]
                plug.transport().built_from(config) && default_for(config@, host, None),
    {
        let mut builder = Config::for_host(host);
        HS100::with_config(builder.build(), socket)
    }

    /// The system information of the plug, from the cache while it is valid
    /// there.
    pub fn info(&mut self) -> (r: Result<HS100Info>)
        ensures
            final(self).asked_info(old(self), r),
            r matches Err(e) ==> e.is_io() || e.is_json(),
    {
        match self.sysinfo.get_sysinfo(&mut self.transport) {
            Ok(value) => HS100Info::from_json(&value),
            Err(e) => Err(e),
        }
    }

    /// The software version of the plug, by its system information.
    pub fn sw_ver(&mut self) -> (r: Result<String>)
        ensures
            final(self).told_of_info(old(self), r, |info: HS100Info| info.sw_ver),
    {
        match self.info() {
            Ok(info) => Ok(info.sw_ver),
            Err(e) => Err(e),
        }
    }

    /// The hardware version of the plug, by its system information.
    pub fn hw_ver(&mut self) -> (r: Result<String>)
        ensures
            final(self).told_of_info(old(self), r, |info: HS100Info| info.hw_ver),
    {
        match self.info() {
            Ok(info) => Ok(info.hw_ver),
            Err(e) => Err(e),
        }
    }

    /// The model of the plug, by its system information.
    pub fn model(&mut self) -> (r: Result<String>)
        ensures
            final(self).told_of_info(old(self), r, |info: HS100Info| info.model),
    {
        match self.info() {
            Ok(info) => Ok(info.model),
            Err(e) => Err(e),
        }
    }

    /// The name of the plug, by its system information.
    pub fn alias(&mut self) -> (r: Result<String>)
        ensures
            final(self).told_of_info(old(self), r, |info: HS100Info| info.alias),
    {
        match self.info() {
            Ok(info) => Ok(info.alias),
            Err(e) => Err(e),
        }
    }

    /// The mac address of the plug, by its system information.
    pub fn mac_address(&mut self) -> (r: Result<String>)
        ensures
            final(self).told_of_info(old(self), r, |info: HS100Info| info.mac),
    {
        match self.info() {
            Ok(info) => Ok(info.mac),
            Err(e) => Err(e),
        }
    }

    /// The Wi-Fi signal strength of the plug, by its system information.
    pub fn rssi(&mut self) -> (r: Result<i64>)
        ensures
            final(self).told_of_info(old(self), r, |info: HS100Info| info.rssi),
    {
        match self.info() {
            Ok(info) => Ok(info.rssi),
            Err(e) => Err(e),
        }
    }

    /// The location of the plug, by its system information.
    pub fn location(&mut self) -> (r: Result<Location>)
        ensures
            final(self).told_of_info(old(self), r, |info: HS100Info| info.location),
    {
        match self.info() {
            Ok(info) => Ok(info.location),
            Err(e) => Err(e),
        }
    }

    /// Whether the plug meters energy, by its system information.
    pub fn has_emeter(&mut self) -> (r: Result<bool>)
        ensures
            final(self).told_of_info(old(self), r, |info: HS100Info| info.meters()),
    {
        match self.info() {
            Ok(info) => Ok(info.has_emeter()),
            Err(e) => Err(e),
        }
    }

    /// Whether the plug is on, by its system information.
    pub fn is_on(&mut self) -> (r: Result<bool>)
        ensures
            final(self).told_of_info(old(self), r, |info: HS100Info| info.relay_state == 1),
    {
        match self.info() {
            Ok(info) => Ok(info.is_on()),
            Err(e) => Err(e),
        }
    }

    /// Whether the LED of the plug is on, by its system information.
    pub fn is_led_on(&mut self) -> (r: Result<bool>)
        ensures
            final(self).told_of_info(old(self), r, |info: HS100Info| info.led_off == 0),
    {
        match self.info() {
            Ok(info) => Ok(info.is_led_on()),
            Err(e) => Err(e),
        }
    }

    /// Sends a command of the system namespace that changes the plug. What
    /// is cached of that namespace is dropped first.
    fn change(&mut self, command: &str, arg: Value) -> (r: Result<()>)
        ensures
            final(self).system_changed(old(self), command@, json_of(arg), r),
    {
        let request = Request::new("system", command, Some(arg));
        match self.transport.execute(request, CachePolicy::InvalidateNamespace) {
            Ok(_) => Ok(()),
            Err(e) => Err(e),
        }
    }

    /// Switches the LED on. What is cached of the system namespace is
    /// dropped first.
    pub fn turn_on_led(&mut self) -> (r: Result<()>)
        ensures
            final(self).system_changed(old(self), "set_led_off"@, led_document(false), r),
    {
        self.change("set_led_off", led_argument(false))
    }

    /// Switches the LED off. What is cached of the system namespace is
    /// dropped first.
    pub fn turn_off_led(&mut self) -> (r: Result<()>)
        ensures
            final(self).system_changed(old(self), "set_led_off"@, led_document(true), r),
    {
        self.change("set_led_off", led_argument(true))
    }
}

impl<S: Socket> Device for HS100<S> {
    /// What is cached of the system namespace is dropped and the plug is
    /// asked to set its relay to on, or to off.
    open spec fn switched(&self, before: &Self, on: bool, answer: Result<()>) -> bool {
        self.system_changed(before, "set_relay_state"@, relay_document(on), answer)
    }

    fn turn_on(&mut self) -> (answer: Result<()>) {
        self.change("set_relay_state", relay_argument(true))
    }

    fn turn_off(&mut self) -> (answer: Result<()>) {
        self.change("set_relay_state", relay_argument(false))
    }
}

impl<S: Socket> Sys for HS100<S> {
    /// Everything cached is dropped and the plug is asked to reboot, or to
    /// reset, after the delay.
    open spec fn restarted(
        &self,
        before: &Self,
        factory_reset: bool,
        delay: Option<Duration>,
        answer: Result<()>,
    ) -> bool {
        self.ran(
            before,
            CachePolicy::InvalidateAll,
            before.system_namespace(),
            if factory_reset {
                "reset"@
            } else {
                "reboot"@
            },
            delay_document(delay),
            |answer: Result<Value>, told: Result<()>| acknowledged(answer, told),
            answer,
        )
    }

    fn reboot(&mut self, delay: Option<Duration>) -> (answer: Result<()>) {
        self.system.reboot(&mut self.transport, delay)
    }

    fn factory_reset(&mut self, delay: Option<Duration>) -> (answer: Result<()>) {
        self.system.reset(&mut self.transport, delay)
    }
}

impl<S: Socket> Time for HS100<S> {
    /// The plug is asked for its time; the cache is left alone.
    open spec fn time_told(&self, before: &Self, answer: Result<DeviceTime>) -> bool {
        self.ran(
            before,
            CachePolicy::Uncached,
            before.time_namespace(),
            "get_time"@,
            Json::Null,
            |answer: Result<Value>, told: Result<DeviceTime>| time_read(answer, told),
            answer,
        )
    }

    /// The plug is asked for its timezone; the cache is left alone.
    open spec fn timezone_told(&self, before: &Self, answer: Result<DeviceTimeZone>) -> bool {
        self.ran(
            before,
            CachePolicy::Uncached,
            before.time_namespace(),
            "get_timezone"@,
            Json::Null,
            |answer: Result<Value>, told: Result<DeviceTimeZone>| timezone_read(answer, told),
            answer,
        )
    }

    fn time(&mut self) -> (answer: Result<DeviceTime>) {
        self.time_settings.get_time(&mut self.transport)
    }

    fn timezone(&mut self) -> (answer: Result<DeviceTimeZone>) {
        self.time_settings.get_timezone(&mut self.transport)
    }
}

impl<S: Socket> Timer for HS100<S> {
    /// The rules are read through the cache.
    open spec fn rules_asked(&self, before: &Self, answer: Result<RuleList>) -> bool {
        self.ran(
            before,
            CachePolicy::ReadThrough,
            before.timer_namespace(),
            "get_rules"@,
            Json::Null,
            |answer: Result<Value>, told: Result<RuleList>| rules_read(answer, told),
            answer,
        )
    }

    /// The rules are read through the cache. Where that fails, its error is
    /// the answer. Where the table holds a rule, it is full: adding is not
    /// supported, and the plug is not asked. Else what is cached of the
    /// timer's namespace is dropped and the plug is asked to add the rule;
    /// the answer is the id that it gave.
    open spec fn rule_added(&self, before: &Self, rule: Rule, answer: Result<String>) -> bool {
        exists|mid: Self, rules: Result<RuleList>| #[trigger]
            mid.rules_asked(before, rules) && match rules {
                Err(e) => self.untouched(&mid) && (answer matches Err(failed) && failed == e),
                Ok(list) => self.ran_plan(
                    &mid,
                    add_rule_plan(list, rule),
                    CachePolicy::InvalidateNamespace,
                    mid.timer_namespace(),
                    "add_rule"@,
                    |answer: Result<Value>, told: Result<String>| rule_id_read(answer, told),
                    answer,
                ),
            }
    }

    /// What is cached of the timer's namespace is dropped and the plug is
    /// asked to replace the rule.
    open spec fn rule_edited(
        &self,
        before: &Self,
        id: Seq<char>,
        rule: Rule,
        answer: Result<()>,
    ) -> bool {
        self.ran(
            before,
            CachePolicy::InvalidateNamespace,
            before.timer_namespace(),
            "edit_rule"@,
            rule.argument().with("id"@, Json::Text(id)),
            |answer: Result<Value>, told: Result<()>| acknowledged(answer, told),
            answer,
        )
    }

    /// What is cached of the timer's namespace is dropped and the plug is
    /// asked to delete the rule.
    open spec fn rule_deleted(&self, before: &Self, id: Seq<char>, answer: Result<()>) -> bool {
        self.ran(
            before,
            CachePolicy::InvalidateNamespace,
            before.timer_namespace(),
            "delete_rule"@,
            rule_id_document(id),
            |answer: Result<Value>, told: Result<()>| acknowledged(answer, told),
            answer,
        )
    }

    /// What is cached of the timer's namespace is dropped and the plug is
    /// asked to delete every rule.
    open spec fn rules_deleted(&self, before: &Self, answer: Result<()>) -> bool {
        self.ran(
            before,
            CachePolicy::InvalidateNamespace,
            before.timer_namespace(),
            "delete_all_rules"@,
            Json::Null,
            |answer: Result<Value>, told: Result<()>| acknowledged(answer, told),
            answer,
        )
    }

    fn get_timer_rules(&mut self) -> (answer: Result<RuleList>) {
        self.timer_settings.get_rules(&mut self.transport)
    }

    fn add_timer_rule(&mut self, rule: Rule) -> (answer: Result<String>) {
        let asked = self.timer_settings.get_rules(&mut self.transport);
        let ghost mid = *self;
        assert(mid.rules_asked(old(self), asked));
        let rules = match asked {
            Ok(rules) => rules,
            Err(e) => {
                return Err(e);
            },
        };
        match require_room(&rules) {
            Ok(_) => self.timer_settings.add_rule(&mut self.transport, rule),
            Err(e) => Err(e),
        }
    }

    fn edit_timer_rule(&mut self, id: &str, rule: Rule) -> (answer: Result<()>) {
        self.timer_settings.edit_rule(&mut self.transport, id, rule)
    }

    fn delete_timer_rule_with_id(&mut self, id: &str) -> (answer: Result<()>) {
        self.timer_settings.delete_rule_with_id(&mut self.transport, id)
    }

    fn delete_all_timer_rules(&mut self) -> (answer: Result<()>) {
        self.timer_settings.delete_all_rules(&mut self.transport)
    }
}

impl<S: Socket> Cloud for HS100<S> {
    /// The cloud information is read through the cache.
    open spec fn cloud_asked(&self, before: &Self, answer: Result<CloudInfo>) -> bool {
        self.ran(
            before,
            CachePolicy::ReadThrough,
            before.cloud_namespace(),
            "get_info"@,
            Json::Null,
            |answer: Result<Value>, told: Result<CloudInfo>| cloud_read(answer, told),
            answer,
        )
    }

    /// The firmware on offer is read through the cache.
    open spec fn firmware_asked(&self, before: &Self, answer: Result<Vec<String>>) -> bool {
        self.ran(
            before,
            CachePolicy::ReadThrough,
            before.cloud_namespace(),
            "get_intl_fw_list"@,
            Json::Null,
            |answer: Result<Value>, told: Result<Vec<String>>| firmware_read(answer, told),
            answer,
        )
    }

    /// What is cached of the cloud namespace is dropped and the plug is
    /// asked to bind.
    open spec fn bound(
        &self,
        before: &Self,
        username: Seq<char>,
        password: Seq<char>,
        answer: Result<()>,
    ) -> bool {
        self.ran(
            before,
            CachePolicy::InvalidateNamespace,
            before.cloud_namespace(),
            "bind"@,
            credentials_document(username, password),
            |answer: Result<Value>, told: Result<()>| acknowledged(answer, told),
            answer,
        )
    }

    /// What is cached of the cloud namespace is dropped and the plug is
    /// asked to unbind.
    open spec fn unbound(&self, before: &Self, answer: Result<()>) -> bool {
        self.ran(
            before,
            CachePolicy::InvalidateNamespace,
            before.cloud_namespace(),
            "unbind"@,
            Json::Null,
            |answer: Result<Value>, told: Result<()>| acknowledged(answer, told),
            answer,
        )
    }

    /// What is cached of the cloud namespace is dropped and the plug is
    /// pointed to the server.
    open spec fn server_set(&self, before: &Self, url: Seq<char>, answer: Result<()>) -> bool {
        self.ran(
            before,
            CachePolicy::InvalidateNamespace,
            before.cloud_namespace(),
            "set_server_url"@,
            server_document(url),
            |answer: Result<Value>, told: Result<()>| acknowledged(answer, told),
            answer,
        )
    }

    fn get_cloud_info(&mut self) -> (answer: Result<CloudInfo>) {
        self.cloud_settings.get_info(&mut self.transport)
    }

    fn bind(&mut self, username: &str, password: &str) -> (answer: Result<()>) {
        self.cloud_settings.bind(&mut self.transport, username, password)
    }

    fn unbind(&mut self) -> (answer: Result<()>) {
        self.cloud_settings.unbind(&mut self.transport)
    }

    fn get_firmware_list(&mut self) -> (answer: Result<Vec<String>>) {
        self.cloud_settings.get_firmware_list(&mut self.transport)
    }

    fn set_server_url(&mut self, url: &str) -> (answer: Result<()>) {
        self.cloud_settings.set_server_url(&mut self.transport, url)
    }
}

impl<S: Socket> Wlan for HS100<S> {
    /// The plug is asked to scan; the cache is left alone. Where no scan
    /// timeout is given, the read timeout of the exchange is asked for.
    open spec fn scanned(
        &self,
        before: &Self,
        refresh: bool,
        timeout: Option<Duration>,
        answer: Result<Vec<AccessPoint>>,
    ) -> bool {
        self.ran(
            before,
            CachePolicy::Uncached,
            before.netif_namespace(),
            "get_scaninfo"@,
            scan_document(refresh, timeout, before.transport().settings()@.read_timeout),
            |answer: Result<Value>, told: Result<Vec<AccessPoint>>| scan_read(answer, told),
            answer,
        )
    }

    fn get_scan_info(&mut self, refresh: bool, timeout: Option<Duration>) -> (answer: Result<
        Vec<AccessPoint>,
    >) {
        self.netif.get_scan_info(&mut self.transport, refresh, timeout)
    }
}

impl<S: Socket> Emeter for HS100<S> {
    /// The system information is asked for; then, where the plug has a
    /// meter, the readings are read through the cache. A plug without meter
    /// does not support the command and is not asked.
    open spec fn realtime_asked(&self, before: &Self, answer: Result<RealtimeStats>) -> bool {
        self.informed_then(
            before,
            answer,
            |mid: Self, info: HS100Info|
                self.ran_plan(
                    &mid,
                    permit(info.meters(), Json::Null),
                    CachePolicy::ReadThrough,
                    mid.emeter_namespace(),
                    "get_realtime"@,
                    |answer: Result<Value>, told: Result<RealtimeStats>|
                        realtime_read(answer, told),
                    answer,
                ),
        )
    }

    /// The system information is asked for; then, where the plug has a
    /// meter, the months are read through the cache.
    open spec fn months_asked(&self, before: &Self, year: u32, answer: Result<MonthStats>) -> bool {
        self.informed_then(
            before,
            answer,
            |mid: Self, info: HS100Info|
                self.ran_plan(
                    &mid,
                    permit(info.meters(), month_stats_document(year)),
                    CachePolicy::ReadThrough,
                    mid.emeter_namespace(),
                    "get_monthstat"@,
                    |answer: Result<Value>, told: Result<MonthStats>| months_read(answer, told),
                    answer,
                ),
        )
    }

    /// The system information is asked for; then, where the plug has a
    /// meter and the month lies from 1 to 12, the days are read through the
    /// cache. Any other month is an invalid parameter.
    open spec fn days_asked(
        &self,
        before: &Self,
        month: u32,
        year: u32,
        answer: Result<DayStats>,
    ) -> bool {
        self.informed_then(
            before,
            answer,
            |mid: Self, info: HS100Info|
                self.ran_plan(
                    &mid,
                    day_stats_plan(info.meters(), month, year),
                    CachePolicy::ReadThrough,
                    mid.emeter_namespace(),
                    "get_daystat"@,
                    |answer: Result<Value>, told: Result<DayStats>| days_read(answer, told),
                    answer,
                ),
        )
    }

    /// The system information is asked for; then, where the plug has a
    /// meter, what is cached of the meter's namespace is dropped and the
    /// plug is asked to erase.
    open spec fn meter_erased(&self, before: &Self, answer: Result<()>) -> bool {
        self.informed_then(
            before,
            answer,
            |mid: Self, info: HS100Info|
                self.ran_plan(
                    &mid,
                    permit(info.meters(), Json::Null),
                    CachePolicy::InvalidateNamespace,
                    mid.emeter_namespace(),
                    "erase_emeter_stat"@,
                    |answer: Result<Value>, told: Result<()>| acknowledged(answer, told),
                    answer,
                ),
        )
    }

    fn get_emeter_realtime(&mut self) -> (answer: Result<RealtimeStats>) {
        let info = match self.info() {
            Ok(info) => info,
            Err(e) => {
                return Err(e);
            },
        };
        match require_emeter(info.has_emeter(), info.model(), "get_emeter_realtime") {
            Ok(_) => self.emeter.get_realtime(&mut self.transport),
            Err(e) => Err(e),
        }
    }

    fn get_emeter_month_stats(&mut self, year: u32) -> (answer: Result<MonthStats>) {
        let info = match self.info() {
            Ok(info) => info,
            Err(e) => {
                return Err(e);
            },
        };
        match require_emeter(info.has_emeter(), info.model(), "get_emeter_month_stats") {
            Ok(_) => self.emeter.get_month_stats(&mut self.transport, year),
            Err(e) => Err(e),
        }
    }

    fn get_emeter_day_stats(&mut self, month: u32, year: u32) -> (answer: Result<DayStats>) {
        let info = match self.info() {
            Ok(info) => info,
            Err(e) => {
                return Err(e);
            },
        };
        match day_stats_request(info.has_emeter(), info.model(), month, year) {
            Ok(_) => self.emeter.get_day_stats(&mut self.transport, month, year),
            Err(e) => Err(e),
        }
    }

    fn erase_emeter_stats(&mut self) -> (answer: Result<()>) {
        let info = match self.info() {
            Ok(info) => info,
            Err(e) => {
                return Err(e);
            },
        };
        match require_emeter(info.has_emeter(), info.model(), "erase_emeter_stats") {
            Ok(_) => self.emeter.erase_stats(&mut self.transport),
            Err(e) => Err(e),
        }
    }
}

impl<S: Socket> SysInfo for HS100<S> {
    type Info = HS100Info;

    /// The system information is read through the cache.
    open spec fn informed(&self, before: &Self, answer: Result<HS100Info>) -> bool {
        self.asked_info(before, answer)
    }

    fn sysinfo(&mut self) -> (answer: Result<HS100Info>) {
        self.info()
    }
}

} // verus!
