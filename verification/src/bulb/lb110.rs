use vstd::prelude::*;
use serde_json::Value;
use std::time::Duration;
use crate::bulb::lighting::{light_state_in, light_state_set, LightState, Lighting, HSV};
use crate::clock;
use crate::command::cloud::{
    cloud_read,
    credentials_document,
    firmware_read,
    server_document,
    Cloud,
    CloudInfo,
    CloudSettings,
};
use crate::command::device::Device;
use crate::command::emeter::{
    day_stats_plan,
    day_stats_request,
    days_read,
    month_stats_document,
    months_read,
    realtime_read,
    require_emeter,
    DayStats,
    Emeter,
    EmeterStats,
    MonthStats,
    RealtimeStats,
};
use crate::command::sys::{delay_document, Sys, System};
use crate::command::sysinfo::{SysInfo, SystemInfo};
use crate::command::time::{
    time_read,
    timezone_read,
    DeviceTime,
    DeviceTimeZone,
    Time,
    TimeSettings,
};
use crate::command::wlan::{scan_document, scan_read, AccessPoint, Netif, Wlan};
use crate::config::{default_for, Config};
use crate::error;
use crate::error::{picked, refuses, Refusal, Result};
use crate::fields::{
    field,
    i64_at,
    i64_field,
    is_vacant,
    singleton,
    text_at,
    text_field,
    u64_at,
    u64_field,
    vacant,
};
use crate::json;
use crate::json::{empty_object, json_of, Json};
use crate::proto::{Host, Socket};
use crate::transport::{acknowledged, permit, planned, CachePolicy, Plan, Transport};
use crate::util;
use crate::util::{color_temp_range_of, labelled, numbered};

verus! {

/// The largest hue, in degrees.
pub const MAX_HUE: u32 = 360;

/// The largest saturation and the largest brightness, in percent.
pub const MAX_PERCENT: u32 = 100;

/// The system information of a smart bulb.
#[derive(Debug)]
pub struct LB110Info {
    pub sw_ver: String,
    pub hw_ver: String,
    pub model: String,
    pub description: Option<String>,
    pub alias: String,
    pub mic_type: String,
    pub mic_mac: String,
    pub is_dimmable: u64,
    pub is_color: u64,
    pub is_variable_color_temp: u64,
    pub light_state: LightState,
    pub rssi: i64,
}

impl LB110Info {
    /// Whether `self` is the system information that `document` holds.
    pub open spec fn describes(&self, document: Json) -> bool {
        &&& text_at(document, "sw_ver"@) == Some(self.sw_ver@)
        &&& text_at(document, "hw_ver"@) == Some(self.hw_ver@)
        &&& text_at(document, "model"@) == Some(self.model@)
        &&& match self.description {
            Some(text) => text_at(document, "description"@) == Some(text@),
            None => vacant(document, "description"@),
        }
        &&& text_at(document, "alias"@) == Some(self.alias@)
        &&& text_at(document, "mic_type"@) == Some(self.mic_type@)
        &&& text_at(document, "mic_mac"@) == Some(self.mic_mac@)
        &&& u64_at(document, "is_dimmable"@) == Some(self.is_dimmable)
        &&& u64_at(document, "is_color"@) == Some(self.is_color)
        &&& u64_at(document, "is_variable_color_temp"@) == Some(self.is_variable_color_temp)
        &&& document.get("light_state"@) matches Some(state) && light_state_in(state) == Some(
            self.light_state,
        )
        &&& i64_at(document, "rssi"@) == Some(self.rssi)
    }

    /// Whether `document` can be read as the system information of a bulb.
    pub open spec fn readable(document: Json) -> bool {
        &&& text_at(document, "sw_ver"@) is Some
        &&& text_at(document, "hw_ver"@) is Some
        &&& text_at(document, "model"@) is Some
        &&& vacant(document, "description"@) || text_at(document, "description"@) is Some
        &&& text_at(document, "alias"@) is Some
        &&& text_at(document, "mic_type"@) is Some
        &&& text_at(document, "mic_mac"@) is Some
        &&& u64_at(document, "is_dimmable"@) is Some
        &&& u64_at(document, "is_color"@) is Some
        &&& u64_at(document, "is_variable_color_temp"@) is Some
        &&& document.get("light_state"@) matches Some(state) && light_state_in(state) is Some
        &&& i64_at(document, "rssi"@) is Some
    }

    /// Reads the system information of a bulb out of a reply.
    pub fn from_json(value: &Value) -> (r: Result<LB110Info>)
        ensures
            match r {
                Ok(info) => info.describes(json_of(*value)),
                Err(e) => !LB110Info::readable(json_of(*value)) && e.is_unexpected(),
            },
    {
        let sw_ver = match text_field(value, "sw_ver") {
            Ok(s) => s,
            Err(e) => {
                return Err(e);
            },
        };
        let hw_ver = match text_field(value, "hw_ver") {
            Ok(s) => s,
            Err(e) => {
                return Err(e);
            },
        };
        let model = match text_field(value, "model") {
            Ok(s) => s,
            Err(e) => {
                return Err(e);
            },
        };
        let description = if is_vacant(value, "description") {
            None
        } else {
            match text_field(value, "description") {
                Ok(s) => Some(s),
                Err(e) => {
                    return Err(e);
                },
            }
        };
        let alias = match text_field(value, "alias") {
            Ok(s) => s,
            Err(e) => {
                return Err(e);
            },
        };
        let mic_type = match text_field(value, "mic_type") {
            Ok(s) => s,
            Err(e) => {
                return Err(e);
            },
        };
        let mic_mac = match text_field(value, "mic_mac") {
            Ok(s) => s,
            Err(e) => {
                return Err(e);
            },
        };
        let is_dimmable = match u64_field(value, "is_dimmable") {
            Ok(n) => n,
            Err(e) => {
                return Err(e);
            },
        };
        let is_color = match u64_field(value, "is_color") {
            Ok(n) => n,
            Err(e) => {
                return Err(e);
            },
        };
        let is_variable_color_temp = match u64_field(value, "is_variable_color_temp") {
            Ok(n) => n,
            Err(e) => {
                return Err(e);
            },
        };
        let state = match field(value, "light_state") {
            Ok(state) => state,
            Err(e) => {
                return Err(e);
            },
        };
        let light_state = match LightState::from_json(state) {
            Ok(state) => state,
            Err(e) => {
                return Err(e);
            },
        };
        let rssi = match i64_field(value, "rssi") {
            Ok(n) => n,
            Err(e) => {
                return Err(e);
            },
        };
        Ok(
            LB110Info {
                sw_ver,
                hw_ver,
                model,
                description,
                alias,
                mic_type,
                mic_mac,
                is_dimmable,
                is_color,
                is_variable_color_temp,
                light_state,
                rssi,
            },
        )
    }

    /// Returns the software version of the device.
    pub fn sw_ver(&self) -> (sw_ver: &str)
        ensures
            sw_ver@ == self.sw_ver@,
    {
        self.sw_ver.as_str()
    }

    /// Returns the hardware version of the device.
    pub fn hw_ver(&self) -> (hw_ver: &str)
        ensures
            hw_ver@ == self.hw_ver@,
    {
        self.hw_ver.as_str()
    }

    /// Returns the model of the device.
    pub fn model(&self) -> (model: &str)
        ensures
            model@ == self.model@,
    {
        self.model.as_str()
    }

    /// Returns the name (alias) of the device.
    pub fn alias(&self) -> (alias: &str)
        ensures
            alias@ == self.alias@,
    {
        self.alias.as_str()
    }

    /// Returns the type that the device reports of itself.
    pub fn device_type(&self) -> (device_type: &str)
        ensures
            device_type@ == self.mic_type@,
    {
        self.mic_type.as_str()
    }

    /// Returns the mac address of the device.
    pub fn mac_address(&self) -> (mac: &str)
        ensures
            mac@ == self.mic_mac@,
    {
        self.mic_mac.as_str()
    }

    /// Returns whether the bulb supports brightness changes.
    pub fn is_dimmable(&self) -> (dimmable: bool)
        ensures
            dimmable == (self.is_dimmable == 1),
    {
        self.is_dimmable == 1
    }

    /// Returns whether the bulb supports color changes.
    pub fn is_color(&self) -> (color: bool)
        ensures
            color == (self.is_color == 1),
    {
        self.is_color == 1
    }

    /// Returns whether the bulb supports color temperature changes.
    pub fn is_variable_color_temp(&self) -> (variable: bool)
        ensures
            variable == (self.is_variable_color_temp == 1),
    {
        self.is_variable_color_temp == 1
    }

    /// Returns the Wi-Fi signal strength (rssi) of the device.
    pub fn rssi(&self) -> (rssi: i64)
        ensures
            rssi == self.rssi,
    {
        self.rssi
    }

    /// Returns whether the device meters energy; every bulb does.
    pub fn has_emeter(&self) -> (has: bool)
        ensures
            has,
    {
        true
    }

    /// Whether the bulb has the capability, by its system information.
    pub open spec fn capable_of(&self, capability: Capability) -> bool {
        match capability {
            Capability::Colour => self.is_color == 1,
            Capability::Dimming => self.is_dimmable == 1,
            Capability::Temperature => self.is_variable_color_temp == 1,
        }
    }

    /// Whether `colour` is what the system information tells of the colour of
    /// the bulb: the colour of its light state, where the bulb has colour.
    pub open spec fn colour_told(&self, colour: Result<HSV>) -> bool {
        match colour {
            Ok(hsv) => self.is_color == 1 && self.light_state.colour() == Some(hsv),
            Err(e) => if self.is_color == 1 {
                self.light_state.colour() is None && e.is_unexpected()
            } else {
                e.is_unsupported()
            },
        }
    }

    /// Returns the current HSV (Hue, Saturation, Value) state of the bulb.
    /// A bulb without colour does not support it.
    pub fn hsv(&self) -> (r: Result<HSV>)
        ensures
            self.colour_told(r),
    {
        if self.is_color == 1 {
            self.light_state.hsv()
        } else {
            Err(error::unsupported_operation("hsv"))
        }
    }

    /// Whether the bulb may be asked the colour operation `operation`: a
    /// bulb without colour does not support it.
    pub fn require_color(&self, operation: &str) -> (r: Result<()>)
        ensures
            match r {
                Ok(_) => self.is_color == 1,
                Err(e) => self.is_color != 1 && e.is_unsupported(),
            },
    {
        if self.is_color == 1 {
            Ok(())
        } else {
            Err(error::unsupported_operation(labelled(self.model.as_str(), operation).as_str()))
        }
    }

    /// Whether the bulb may be asked the brightness operation `operation`:
    /// a bulb that cannot be dimmed does not support it.
    pub fn require_dimmable(&self, operation: &str) -> (r: Result<()>)
        ensures
            match r {
                Ok(_) => self.is_dimmable == 1,
                Err(e) => self.is_dimmable != 1 && e.is_unsupported(),
            },
    {
        if self.is_dimmable == 1 {
            Ok(())
        } else {
            Err(error::unsupported_operation(labelled(self.model.as_str(), operation).as_str()))
        }
    }

    /// Whether the bulb may be asked the colour temperature operation
    /// `operation`: a bulb with a fixed temperature does not support it.
    pub fn require_variable_color_temp(&self, operation: &str) -> (r: Result<()>)
        ensures
            match r {
                Ok(_) => self.is_variable_color_temp == 1,
                Err(e) => self.is_variable_color_temp != 1 && e.is_unsupported(),
            },
    {
        if self.is_variable_color_temp == 1 {
            Ok(())
        } else {
            Err(error::unsupported_operation(labelled(self.model.as_str(), operation).as_str()))
        }
    }

    /// What the bulb is asked in order to set hue, saturation and brightness.
    ///
    /// A bulb without colour does not support it. A hue above 360 or a
    /// saturation or brightness above 100 is an invalid parameter. The
    /// colour temperature is set to zero along with the colour.
    pub open spec fn hsv_plan(&self, hue: u32, saturation: u32, value: u32) -> Plan {
        if self.is_color != 1 {
            Err(Refusal::Unsupported)
        } else if !(hue <= MAX_HUE && saturation <= MAX_PERCENT && value <= MAX_PERCENT) {
            Err(Refusal::InvalidParameter)
        } else {
            Ok(
                empty_object().with("hue"@, Json::Int(hue as int)).with(
                    "saturation"@,
                    Json::Int(saturation as int),
                ).with("value"@, Json::Int(value as int)).with("color_temp"@, Json::Int(0)),
            )
        }
    }

    /// The change of light state that sets hue, saturation and brightness.
    ///
    /// A bulb without colour does not support it. A hue above 360 or a
    /// saturation or brightness above 100 is an invalid parameter. The
    /// colour temperature is set to zero along with the colour.
    pub fn hsv_change(&self, hue: u32, saturation: u32, value: u32) -> (r: Result<Value>)
        ensures
            planned(self.hsv_plan(hue, saturation, value), r),
    {
        if self.is_color != 1 {
            return Err(
                error::unsupported_operation(labelled(self.model.as_str(), "set_hsv").as_str()),
            );
        }
        if util::u32_in_range(hue, 0, MAX_HUE) && util::u32_in_range(saturation, 0, MAX_PERCENT)
            && util::u32_in_range(value, 0, MAX_PERCENT) {
            let mut arg = json::new_object();
            json::set_member(&mut arg, "hue", json::from_u64(hue as u64));
            json::set_member(&mut arg, "saturation", json::from_u64(saturation as u64));
            json::set_member(&mut arg, "value", json::from_u64(value as u64));
            json::set_member(&mut arg, "color_temp", json::from_u64(0));
            Ok(arg)
        } else {
            let what =
                "set_hsv (valid range: hue(0-360\u{b0}), saturation(0-100%), value(0-100%))";
            Err(error::invalid_parameter(labelled(self.model.as_str(), what).as_str()))
        }
    }

    /// What the bulb is asked in order to set the hue.
    ///
    /// A bulb without colour does not support it. A hue above 360 is an
    /// invalid parameter. The colour temperature is set to zero along with
    /// the hue.
    pub open spec fn hue_plan(&self, hue: u32) -> Plan {
        if self.is_color != 1 {
            Err(Refusal::Unsupported)
        } else if hue > MAX_HUE {
            Err(Refusal::InvalidParameter)
        } else {
            Ok(
                empty_object().with("hue"@, Json::Int(hue as int)).with(
                    "color_temp"@,
                    Json::Int(0),
                ),
            )
        }
    }

    /// The change of light state that sets the hue.
    ///
    /// A bulb without colour does not support it. A hue above 360 is an
    /// invalid parameter. The colour temperature is set to zero along with
    /// the hue.
    pub fn hue_change(&self, hue: u32) -> (r: Result<Value>)
        ensures
            planned(self.hue_plan(hue), r),
    {
        if self.is_color != 1 {
            return Err(
                error::unsupported_operation(labelled(self.model.as_str(), "set_hue").as_str()),
            );
        }
        if util::u32_in_range(hue, 0, MAX_HUE) {
            let mut arg = json::new_object();
            json::set_member(&mut arg, "hue", json::from_u64(hue as u64));
            json::set_member(&mut arg, "color_temp", json::from_u64(0));
            Ok(arg)
        } else {
            let what = numbered("set_hue: ", hue, "\u{b0} (valid range: 0-360\u{b0})");
            Err(error::invalid_parameter(labelled(self.model.as_str(), what.as_str()).as_str()))
        }
    }

    /// What the bulb is asked in order to set the saturation.
    ///
    /// A bulb without colour does not support it. A saturation above 100 is
    /// an invalid parameter. The colour temperature is set to zero along
    /// with the saturation.
    pub open spec fn saturation_plan(&self, saturation: u32) -> Plan {
        if self.is_color != 1 {
            Err(Refusal::Unsupported)
        } else if saturation > MAX_PERCENT {
            Err(Refusal::InvalidParameter)
        } else {
            Ok(
                empty_object().with("saturation"@, Json::Int(saturation as int)).with(
                    "color_temp"@,
                    Json::Int(0),
                ),
            )
        }
    }

    /// The change of light state that sets the saturation.
    ///
    /// A bulb without colour does not support it. A saturation above 100 is
    /// an invalid parameter. The colour temperature is set to zero along
    /// with the saturation.
    pub fn saturation_change(&self, saturation: u32) -> (r: Result<Value>)
        ensures
            planned(self.saturation_plan(saturation), r),
    {
        if self.is_color != 1 {
            return Err(
                error::unsupported_operation(
                    labelled(self.model.as_str(), "set_saturation").as_str(),
                ),
            );
        }
        if util::u32_in_range(saturation, 0, MAX_PERCENT) {
            let mut arg = json::new_object();
            json::set_member(&mut arg, "saturation", json::from_u64(saturation as u64));
            json::set_member(&mut arg, "color_temp", json::from_u64(0));
            Ok(arg)
        } else {
            let what = numbered("set_saturation: ", saturation, "% (valid range: 0-100%)");
            Err(error::invalid_parameter(labelled(self.model.as_str(), what.as_str()).as_str()))
        }
    }

    /// What the bulb is asked in order to set the brightness.
    ///
    /// A bulb that cannot be dimmed does not support it. A brightness above
    /// 100 is an invalid parameter.
    pub open spec fn brightness_plan(&self, brightness: u32) -> Plan {
        if self.is_dimmable != 1 {
            Err(Refusal::Unsupported)
        } else if brightness > MAX_PERCENT {
            Err(Refusal::InvalidParameter)
        } else {
            Ok(empty_object().with("brightness"@, Json::Int(brightness as int)))
        }
    }

    /// The change of light state that sets the brightness.
    ///
    /// A bulb that cannot be dimmed does not support it. A brightness above
    /// 100 is an invalid parameter.
    pub fn brightness_change(&self, brightness: u32) -> (r: Result<Value>)
        ensures
            planned(self.brightness_plan(brightness), r),
    {
        if self.is_dimmable != 1 {
            return Err(
                error::unsupported_operation(
                    labelled(self.model.as_str(), "set_brightness").as_str(),
                ),
            );
        }
        if util::u32_in_range(brightness, 0, MAX_PERCENT) {
            Ok(singleton("brightness", json::from_u64(brightness as u64)))
        } else {
            let what = numbered("set_brightness: ", brightness, "% (valid range: 0-100%)");
            Err(error::invalid_parameter(labelled(self.model.as_str(), what.as_str()).as_str()))
        }
    }

    /// What the bulb is asked in order to set the colour temperature.
    ///
    /// A bulb with a fixed temperature does not support it, and neither
    /// does a model whose range is not known. A temperature outside the
    /// range of the model is an invalid parameter.
    pub open spec fn color_temp_plan(&self, color_temp: u32) -> Plan {
        if self.is_variable_color_temp != 1 {
            Err(Refusal::Unsupported)
        } else {
            match color_temp_range_of(vstd::utf8::encode_utf8(self.model@)) {
                None => Err(Refusal::Unsupported),
                Some(range) => if range.0 <= color_temp <= range.1 {
                    Ok(empty_object().with("color_temp"@, Json::Int(color_temp as int)))
                } else {
                    Err(Refusal::InvalidParameter)
                },
            }
        }
    }

    /// The change of light state that sets the colour temperature.
    ///
    /// A bulb with a fixed temperature does not support it, and neither
    /// does a model whose range is not known. A temperature outside the
    /// range of the model is an invalid parameter.
    pub fn color_temp_change(&self, color_temp: u32) -> (r: Result<Value>)
        ensures
            planned(self.color_temp_plan(color_temp), r),
    {
        if self.is_variable_color_temp != 1 {
            return Err(
                error::unsupported_operation(
                    labelled(self.model.as_str(), "set_color_temp").as_str(),
                ),
            );
        }
        match util::color_temp_range(self.model.as_str()) {
            None => Err(
                error::unsupported_operation(
                    labelled(self.model.as_str(), "set_color_temp").as_str(),
                ),
            ),
            Some(range) => {
                if util::u32_in_range(color_temp, range.0, range.1) {
                    Ok(singleton("color_temp", json::from_u64(color_temp as u64)))
                } else {
                    let what = numbered("set_color_temp: ", color_temp, "K");
                    Err(
                        error::invalid_parameter(
                            labelled(self.model.as_str(), what.as_str()).as_str(),
                        ),
                    )
                }
            },
        }
    }
}

/// The namespace of the system commands of a bulb.
pub const SYSTEM_NAMESPACE: &'static str = "smartlife.iot.common.system";

/// The namespace of the lighting commands of a bulb.
pub const LIGHTING_NAMESPACE: &'static str = "smartlife.iot.smartbulb.lightingservice";

/// The namespace of the cloud commands of a bulb.
pub const CLOUD_NAMESPACE: &'static str = "smartlife.iot.common.cloud";

/// The namespace of the energy meter commands of a bulb.
pub const EMETER_NAMESPACE: &'static str = "smartlife.iot.common.emeter";

/// The namespace of the time commands of a bulb.
pub const TIME_NAMESPACE: &'static str = "smartlife.iot.common.timesetting";

/// The time to live of the cache of a bulb that was made without
/// configuration, in seconds.
pub const DEFAULT_CACHE_SECS: u64 = 3;

/// Whether `info` is what reading system information out of the `answer`
/// of the bulb gives: the information that the answer holds, or the error of
/// the exchange, or a serialization error for an answer that holds none.
pub open spec fn bulb_info_read(answer: Result<Value>, info: Result<LB110Info>) -> bool {
    match answer {
        Err(e) => info matches Err(failed) && failed == e,
        Ok(value) => match info {
            Ok(found) => found.describes(json_of(value)),
            Err(e) => !LB110Info::readable(json_of(value)) && e.is_unexpected(),
        },
    }
}

/// Whether `colour` is what reading the colour of the bulb out of the
/// `answer` to a question for its light state gives: the current colour
/// while the bulb is on and the colour for switching on while it is off; or
/// the error of the exchange; or a serialization error for an answer that
/// holds no light state, or one without the colour in question.
pub open spec fn colour_read(answer: Result<Value>, colour: Result<HSV>) -> bool {
    match answer {
        Err(e) => colour matches Err(failed) && failed == e,
        Ok(value) => match light_state_in(json_of(value)) {
            Some(state) => match state.colour() {
                Some(hsv) => colour matches Ok(c) && c == hsv,
                None => colour matches Err(e) && e.is_unexpected(),
            },
            None => colour matches Err(e) && e.is_unexpected(),
        },
    }
}

/// Whether `on` is what reading the `answer` to a question for the light
/// state gives of whether the bulb is on.
pub open spec fn on_read(answer: Result<Value>, on: Result<bool>) -> bool {
    match answer {
        Err(e) => on matches Err(failed) && failed == e,
        Ok(value) => match light_state_in(json_of(value)) {
            Some(state) => on matches Ok(b) && b == (state.on_off == 1),
            None => on matches Err(e) && e.is_unexpected(),
        },
    }
}

/// What a bulb may or may not be capable of.
pub enum Capability {
    /// Changing its colour.
    Colour,
    /// Changing its brightness.
    Dimming,
    /// Changing its colour temperature.
    Temperature,
}

/// The argument that switches a bulb: `{"on_off": 1}` for on and
/// `{"on_off": 0}` for off.
pub open spec fn switch_document(on: bool) -> Json {
    empty_object().with(
        "on_off"@,
        Json::Int(
            if on {
                1
            } else {
                0
            },
        ),
    )
}

/// A Wi-Fi LED smart bulb.
pub struct LB110<S: Socket> {
    transport: Transport<S>,
    system: System,
    lighting: Lighting,
    time_settings: TimeSettings,
    cloud_settings: CloudSettings,
    netif: Netif,
    emeter: EmeterStats,
    sysinfo: SystemInfo,
}

impl<S: Socket> LB110<S> {
    /// The transport of the handle.
    pub closed spec fn transport(&self) -> Transport<S> {
        self.transport
    }

    /// The namespace of the system commands.
    pub closed spec fn system_namespace(&self) -> Seq<char> {
        self.system.namespace()
    }

    /// The namespace of the lighting commands.
    pub closed spec fn lighting_namespace(&self) -> Seq<char> {
        self.lighting.namespace()
    }

    /// The namespace of the time commands.
    pub closed spec fn time_namespace(&self) -> Seq<char> {
        self.time_settings.namespace()
    }

    /// The namespace of the cloud commands.
    pub closed spec fn cloud_namespace(&self) -> Seq<char> {
        self.cloud_settings.namespace()
    }

    /// The namespace of the network interface commands.
    pub closed spec fn netif_namespace(&self) -> Seq<char> {
        self.netif.namespace()
    }

    /// The namespace of the energy meter commands.
    pub closed spec fn emeter_namespace(&self) -> Seq<char> {
        self.emeter.namespace()
    }

    /// Whether the handle addresses each of its commands to the namespace
    /// that a bulb has for it.
    pub open spec fn namespaces_set(&self) -> bool {
        &&& self.system_namespace() == SYSTEM_NAMESPACE@
        &&& self.lighting_namespace() == LIGHTING_NAMESPACE@
        &&& self.time_namespace() == TIME_NAMESPACE@
        &&& self.cloud_namespace() == CLOUD_NAMESPACE@
        &&& self.emeter_namespace() == EMETER_NAMESPACE@
        &&& self.netif_namespace() == "netif"@
    }

    /// Whether `self` and `other` are handles of the same device that
    /// differ at most in what they have cached.
    pub closed spec fn same_handle(&self, other: &Self) -> bool {
        &&& self.transport.same_device(&other.transport)
        &&& self.system == other.system
        &&& self.lighting == other.lighting
        &&& self.time_settings == other.time_settings
        &&& self.cloud_settings == other.cloud_settings
        &&& self.netif == other.netif
        &&& self.emeter == other.emeter
    }

    /// Handles of the same device address their commands alike.
    pub proof fn lemma_same_handle(&self, other: &Self)
        requires
            self.same_handle(other),
        ensures
            self.system_namespace() == other.system_namespace(),
            self.lighting_namespace() == other.lighting_namespace(),
            self.time_namespace() == other.time_namespace(),
            self.cloud_namespace() == other.cloud_namespace(),
            self.netif_namespace() == other.netif_namespace(),
            self.emeter_namespace() == other.emeter_namespace(),
            self.transport().same_device(&other.transport()),
    {
    }

    /// Whether `self` is the handle `other` with nothing changed, the cache
    /// included.
    pub open spec fn untouched(&self, other: &Self) -> bool {
        &&& self.same_handle(other)
        &&& self.transport().response_cache() == other.transport().response_cache()
    }

    /// Whether `told` is what a command makes of executing
    /// `[target][command]` with `argument` under `policy` on the handle
    /// `before`, and `self` the handle that is left. See
    /// [`Transport::executed`].
    pub open spec fn ran<T>(
        &self,
        before: &Self,
        policy: CachePolicy,
        target: Seq<char>,
        command: Seq<char>,
        argument: Json,
        read: spec_fn(Result<Value>, Result<T>) -> bool,
        told: Result<T>,
    ) -> bool {
        &&& self.same_handle(before)
        &&& self.transport().executed(
            &before.transport(),
            policy,
            target,
            command,
            argument,
            read,
            told,
        )
    }

    /// Whether `told` is what a command makes of its `plan`: where the plan
    /// refuses, nothing is sent, nothing changes and the refusal is the
    /// error; else the command is executed with the planned argument.
    pub open spec fn ran_plan<T>(
        &self,
        before: &Self,
        plan: Plan,
        policy: CachePolicy,
        target: Seq<char>,
        command: Seq<char>,
        read: spec_fn(Result<Value>, Result<T>) -> bool,
        told: Result<T>,
    ) -> bool {
        match plan {
            Err(refusal) => self.untouched(before) && (told matches Err(e) && refuses(refusal, e)),
            Ok(argument) => self.ran(before, policy, target, command, argument, read, told),
        }
    }

    /// Whether `done` is what changing the light state as `plan` says makes
    /// of the handle `before`: where the plan refuses, nothing; else what
    /// is cached of the lighting namespace is dropped, the bulb is asked for
    /// the transition with the planned argument, and it is done where the
    /// answer holds the new light state.
    pub open spec fn light_changed(&self, before: &Self, plan: Plan, done: Result<()>) -> bool {
        self.ran_plan(
            before,
            plan,
            CachePolicy::InvalidateNamespace,
            before.lighting_namespace(),
            "transition_light_state"@,
            |answer: Result<Value>, told: Result<()>| light_state_set(answer, told),
            done,
        )
    }

    /// Whether `info` is what asking the handle `before` for the system
    /// information of its bulb may give, and `self` the handle that is left:
    /// `system`/`get_sysinfo` was read through the cache.
    pub open spec fn asked_info(&self, before: &Self, info: Result<LB110Info>) -> bool {
        self.ran(
            before,
            CachePolicy::ReadThrough,
            "system"@,
            "get_sysinfo"@,
            Json::Null,
            |answer: Result<Value>, told: Result<LB110Info>| bulb_info_read(answer, told),
            info,
        )
    }

    /// Whether `told` is what a command gives that first asks for the
    /// system information and then goes on as `then` says, given the handle
    /// that the first step left and the information. Where the first step
    /// fails, its error is the result and nothing more happens.
    pub open spec fn informed_then<T>(
        &self,
        before: &Self,
        told: Result<T>,
        then: spec_fn(Self, LB110Info) -> bool,
    ) -> bool {
        exists|mid: Self, whole: Result<LB110Info>| #[trigger]
            mid.asked_info(before, whole) && match whole {
                Err(e) => self.untouched(&mid) && (told matches Err(failed) && failed == e),
                Ok(info) => then(mid, info),
            }
    }

    /// Whether `told` is the part `pick` of the system information that the
    /// handle `before` was asked for.
    pub open spec fn told_of_info<T>(
        &self,
        before: &Self,
        told: Result<T>,
        pick: spec_fn(LB110Info) -> T,
    ) -> bool {
        exists|whole: Result<LB110Info>| #[trigger]
            self.asked_info(before, whole) && picked(whole, told, pick)
    }

    /// Whether `colour` is what asking for the colour of the light state
    /// gives, for an operation that takes the capability `needed`: the
    /// system information is asked for; then, where it says that the bulb
    /// has the capability, the light state is read through the cache. A
    /// bulb without the capability does not support the operation and is
    /// not asked.
    pub open spec fn colour_asked(
        &self,
        before: &Self,
        needed: Capability,
        colour: Result<HSV>,
    ) -> bool {
        self.informed_then(
            before,
            colour,
            |mid: Self, info: LB110Info|
                self.ran_plan(
                    &mid,
                    permit(info.capable_of(needed), Json::Null),
                    CachePolicy::ReadThrough,
                    mid.lighting_namespace(),
                    "get_light_state"@,
                    |answer: Result<Value>, told: Result<HSV>| colour_read(answer, told),
                    colour,
                ),
        )
    }

    /// Whether `told` is the part `pick` of the colour that the handle
    /// `before` was asked for, for an operation that takes the capability
    /// `needed`. See [`LB110::colour_asked`].
    pub open spec fn told_of_colour(
        &self,
        before: &Self,
        needed: Capability,
        told: Result<u32>,
        pick: spec_fn(HSV) -> u32,
    ) -> bool {
        exists|colour: Result<HSV>| #[trigger]
            self.colour_asked(before, needed, colour) && picked(colour, told, pick)
    }

    /// A handle for the bulb that `config` describes, over `socket`.
    pub fn with_config(config: Config, socket: S) -> (bulb: LB110<S>)
        ensures
            bulb.namespaces_set(),
            bulb.transport().built_from(config),
    {
        let transport = Transport::with_config(&config, socket);
        LB110 {
            transport,
            system: System::new(SYSTEM_NAMESPACE),
            lighting: Lighting::new(LIGHTING_NAMESPACE),
            time_settings: TimeSettings::new(TIME_NAMESPACE),
            cloud_settings: CloudSettings::new(CLOUD_NAMESPACE),
            netif: Netif::new(),
            emeter: EmeterStats::new(EMETER_NAMESPACE),
            sysinfo: SystemInfo::new(),
        }
    }

    /// A handle for the bulb at `host`, over `socket`: the default port,
    /// timeouts and buffer size, and a cache with a time to live of three
    /// seconds.
    pub fn new(host: Host, socket: S) -> (bulb: LB110<S>)
        ensures
            bulb.namespaces_set(),
            exists|config: Config| #[trigger]
                bulb.transport().built_from(config) && default_for(config@, host, Some(DEFAULT_CACHE_SECS)),
    {
        let mut builder = Config::for_host(host);
        builder.with_cache_enabled(clock::from_secs(DEFAULT_CACHE_SECS), None);
        LB110::with_config(builder.build(), socket)
    }

    /// The system information of the bulb, from the cache while it is valid
    /// there.
    pub fn info(&mut self) -> (r: Result<LB110Info>)
        ensures
            final(self).asked_info(old(self), r),
            r matches Err(e) ==> e.is_io() || e.is_json(),
    {
        match self.sysinfo.get_sysinfo(&mut self.transport) {
            Ok(value) => LB110Info::from_json(&value),
            Err(e) => Err(e),
        }
    }

    /// The software version of the bulb, by its system information.
    pub fn sw_ver(&mut self) -> (r: Result<String>)
        ensures
            final(self).told_of_info(old(self), r, |info: LB110Info| info.sw_ver),
    {
        match self.info() {
            Ok(info) => Ok(info.sw_ver),
            Err(e) => Err(e),
        }
    }

    /// The hardware version of the bulb, by its system information.
    pub fn hw_ver(&mut self) -> (r: Result<String>)
        ensures
            final(self).told_of_info(old(self), r, |info: LB110Info| info.hw_ver),
    {
        match self.info() {
            Ok(info) => Ok(info.hw_ver),
            Err(e) => Err(e),
        }
    }

    /// The model of the bulb, by its system information.
    pub fn model(&mut self) -> (r: Result<String>)
        ensures
            final(self).told_of_info(old(self), r, |info: LB110Info| info.model),
    {
        match self.info() {
            Ok(info) => Ok(info.model),
            Err(e) => Err(e),
        }
    }

    /// The name of the bulb, by its system information.
    pub fn alias(&mut self) -> (r: Result<String>)
        ensures
            final(self).told_of_info(old(self), r, |info: LB110Info| info.alias),
    {
        match self.info() {
            Ok(info) => Ok(info.alias),
            Err(e) => Err(e),
        }
    }

    /// The mac address of the bulb, by its system information.
    pub fn mac_address(&mut self) -> (r: Result<String>)
        ensures
            final(self).told_of_info(old(self), r, |info: LB110Info| info.mic_mac),
    {
        match self.info() {
            Ok(info) => Ok(info.mic_mac),
            Err(e) => Err(e),
        }
    }

    /// The Wi-Fi signal strength of the bulb, by its system information.
    pub fn rssi(&mut self) -> (r: Result<i64>)
        ensures
            final(self).told_of_info(old(self), r, |info: LB110Info| info.rssi),
    {
        match self.info() {
            Ok(info) => Ok(info.rssi),
            Err(e) => Err(e),
        }
    }

    /// Whether the bulb can be dimmed, by its system information.
    pub fn is_dimmable(&mut self) -> (r: Result<bool>)
        ensures
            final(self).told_of_info(old(self), r, |info: LB110Info| info.is_dimmable == 1),
    {
        match self.info() {
            Ok(info) => Ok(info.is_dimmable()),
            Err(e) => Err(e),
        }
    }

    /// Whether the bulb has colour, by its system information.
    pub fn is_color(&mut self) -> (r: Result<bool>)
        ensures
            final(self).told_of_info(old(self), r, |info: LB110Info| info.is_color == 1),
    {
        match self.info() {
            Ok(info) => Ok(info.is_color()),
            Err(e) => Err(e),
        }
    }

    /// Whether the colour temperature of the bulb can change, by its system
    /// information.
    pub fn is_variable_color_temp(&mut self) -> (r: Result<bool>)
        ensures
            final(self).told_of_info(
                old(self),
                r,
                |info: LB110Info| info.is_variable_color_temp == 1,
            ),
    {
        match self.info() {
            Ok(info) => Ok(info.is_variable_color_temp()),
            Err(e) => Err(e),
        }
    }

    /// Whether the bulb is on, by its light state, which is read through
    /// the cache.
    pub fn is_on(&mut self) -> (r: Result<bool>)
        ensures
            final(self).ran(
                old(self),
                CachePolicy::ReadThrough,
                old(self).lighting_namespace(),
                "get_light_state"@,
                Json::Null,
                |answer: Result<Value>, told: Result<bool>| on_read(answer, told),
                r,
            ),
    {
        match self.lighting.get_light_state(&mut self.transport) {
            Ok(state) => Ok(state.is_on()),
            Err(e) => Err(e),
        }
    }

    /// Whether the bulb meters energy. Every bulb does; the device is not
    /// asked.
    pub fn has_emeter(&mut self) -> (r: Result<bool>)
        ensures
            *final(self) == *old(self),
            r matches Ok(has) && has,
    {
        Ok(true)
    }

    /// The colour of the bulb, by the light state in its system
    /// information. A bulb without colour does not support it.
    pub fn hsv(&mut self) -> (r: Result<HSV>)
        ensures
            final(self).informed_then(
                old(self),
                r,
                |mid: Self, info: LB110Info| final(self).untouched(&mid) && info.colour_told(r),
            ),
    {
        match self.info() {
            Ok(info) => info.hsv(),
            Err(e) => Err(e),
        }
    }

    /// Sets hue, saturation and brightness. The bulb is asked only where
    /// its system information says that it has colour and the three lie in
    /// their ranges; what is cached of the lighting namespace is then
    /// dropped before the bulb is asked.
    pub fn set_hsv(&mut self, hue: u32, saturation: u32, value: u32) -> (r: Result<()>)
        ensures
            final(self).informed_then(
                old(self),
                r,
                |mid: Self, info: LB110Info|
                    final(self).light_changed(&mid, info.hsv_plan(hue, saturation, value), r),
            ),
    {
        let info = match self.info() {
            Ok(info) => info,
            Err(e) => {
                return Err(e);
            },
        };
        match info.hsv_change(hue, saturation, value) {
            Ok(arg) => self.lighting.set_light_state(&mut self.transport, Some(arg)),
            Err(e) => Err(e),
        }
    }

    /// Sets the hue. The bulb is asked only where its system information
    /// says that it has colour and the hue lies in its range.
    pub fn set_hue(&mut self, hue: u32) -> (r: Result<()>)
        ensures
            final(self).informed_then(
                old(self),
                r,
                |mid: Self, info: LB110Info| final(self).light_changed(&mid, info.hue_plan(hue), r),
            ),
    {
        let info = match self.info() {
            Ok(info) => info,
            Err(e) => {
                return Err(e);
            },
        };
        match info.hue_change(hue) {
            Ok(arg) => self.lighting.set_light_state(&mut self.transport, Some(arg)),
            Err(e) => Err(e),
        }
    }

    /// The colour of the light state, for the operation `operation`, which
    /// takes the capability `needed`.
    fn colour_for(&mut self, needed: Capability, operation: &str) -> (r: Result<HSV>)
        ensures
            final(self).colour_asked(old(self), needed, r),
    {
        let info = match self.info() {
            Ok(info) => info,
            Err(e) => {
                return Err(e);
            },
        };
        let allowed = match needed {
            Capability::Colour => info.require_color(operation),
            Capability::Dimming => info.require_dimmable(operation),
            Capability::Temperature => info.require_variable_color_temp(operation),
        };
        match allowed {
            Ok(_) => {},
            Err(e) => {
                return Err(e);
            },
        }
        match self.lighting.get_light_state(&mut self.transport) {
            Ok(state) => state.hsv(),
            Err(e) => Err(e),
        }
    }

    /// The hue of the bulb, where it has colour.
    pub fn hue(&mut self) -> (r: Result<u32>)
        ensures
            final(self).told_of_colour(old(self), Capability::Colour, r, |hsv: HSV| hsv.hue),
    {
        match self.colour_for(Capability::Colour, "hue") {
            Ok(hsv) => Ok(hsv.hue()),
            Err(e) => Err(e),
        }
    }

    /// Sets the saturation. The bulb is asked only where its system
    /// information says that it has colour and the saturation lies in its
    /// range.
    pub fn set_saturation(&mut self, saturation: u32) -> (r: Result<()>)
        ensures
            final(self).informed_then(
                old(self),
                r,
                |mid: Self, info: LB110Info|
                    final(self).light_changed(&mid, info.saturation_plan(saturation), r),
            ),
    {
        let info = match self.info() {
            Ok(info) => info,
            Err(e) => {
                return Err(e);
            },
        };
        match info.saturation_change(saturation) {
            Ok(arg) => self.lighting.set_light_state(&mut self.transport, Some(arg)),
            Err(e) => Err(e),
        }
    }

    /// The saturation of the bulb, where it has colour.
    pub fn saturation(&mut self) -> (r: Result<u32>)
        ensures
            final(self).told_of_colour(old(self), Capability::Colour, r, |hsv: HSV| hsv.saturation),
    {
        match self.colour_for(Capability::Colour, "saturation") {
            Ok(hsv) => Ok(hsv.saturation()),
            Err(e) => Err(e),
        }
    }

    /// Sets the brightness. The bulb is asked only where its system
    /// information says that it can be dimmed and the brightness lies in
    /// its range.
    pub fn set_brightness(&mut self, brightness: u32) -> (r: Result<()>)
        ensures
            final(self).informed_then(
                old(self),
                r,
                |mid: Self, info: LB110Info|
                    final(self).light_changed(&mid, info.brightness_plan(brightness), r),
            ),
    {
        let info = match self.info() {
            Ok(info) => info,
            Err(e) => {
                return Err(e);
            },
        };
        match info.brightness_change(brightness) {
            Ok(arg) => self.lighting.set_light_state(&mut self.transport, Some(arg)),
            Err(e) => Err(e),
        }
    }

    /// The brightness of the bulb, where it can be dimmed.
    pub fn brightness(&mut self) -> (r: Result<u32>)
        ensures
            final(self).told_of_colour(
                old(self),
                Capability::Dimming,
                r,
                |hsv: HSV| hsv.brightness,
            ),
    {
        match self.colour_for(Capability::Dimming, "brightness") {
            Ok(hsv) => Ok(hsv.value()),
            Err(e) => Err(e),
        }
    }

    /// Sets the colour temperature. The bulb is asked only where its system
    /// information says that its temperature can change and the
    /// temperature lies in the range of its model.
    pub fn set_color_temp(&mut self, color_temp: u32) -> (r: Result<()>)
        ensures
            final(self).informed_then(
                old(self),
                r,
                |mid: Self, info: LB110Info|
                    final(self).light_changed(&mid, info.color_temp_plan(color_temp), r),
            ),
    {
        let info = match self.info() {
            Ok(info) => info,
            Err(e) => {
                return Err(e);
            },
        };
        match info.color_temp_change(color_temp) {
            Ok(arg) => self.lighting.set_light_state(&mut self.transport, Some(arg)),
            Err(e) => Err(e),
        }
    }

    /// The colour temperature of the bulb, where it can change.
    pub fn color_temp(&mut self) -> (r: Result<u32>)
        ensures
            final(self).told_of_colour(
                old(self),
                Capability::Temperature,
                r,
                |hsv: HSV| hsv.color_temp,
            ),
    {
        match self.colour_for(Capability::Temperature, "color_temp") {
            Ok(hsv) => Ok(hsv.color_temp()),
            Err(e) => Err(e),
        }
    }
}

impl<S: Socket> Device for LB110<S> {
    /// What is cached of the lighting namespace is dropped and the bulb is
    /// asked for the transition to on, or to off; it is done where the
    /// answer holds the new light state.
    open spec fn switched(&self, before: &Self, on: bool, answer: Result<()>) -> bool {
        self.light_changed(before, Ok(switch_document(on)), answer)
    }

    fn turn_on(&mut self) -> (answer: Result<()>) {
        let arg = singleton("on_off", json::from_u64(1));
        self.lighting.set_light_state(&mut self.transport, Some(arg))
    }

    fn turn_off(&mut self) -> (answer: Result<()>) {
        let arg = singleton("on_off", json::from_u64(0));
        self.lighting.set_light_state(&mut self.transport, Some(arg))
    }
}

impl<S: Socket> Sys for LB110<S> {
    /// Everything cached is dropped and the bulb is asked to reboot, or to
    /// reset, after the delay.
    open spec fn restarted(
        &self,
        before: &Self,
        factory_reset: bool,
        delay: Option<Duration>,
        answer: Result<()>,
    ) -> bool {
        self.ran(
            before,
            CachePolicy::InvalidateAll,
            before.system_namespace(),
            if factory_reset {
                "reset"@
            } else {
                "reboot"@
            },
            delay_document(delay),
            |answer: Result<Value>, told: Result<()>| acknowledged(answer, told),
            answer,
        )
    }

    fn reboot(&mut self, delay: Option<Duration>) -> (answer: Result<()>) {
        self.system.reboot(&mut self.transport, delay)
    }

    fn factory_reset(&mut self, delay: Option<Duration>) -> (answer: Result<()>) {
        self.system.reset(&mut self.transport, delay)
    }
}

impl<S: Socket> Time for LB110<S> {
    /// The bulb is asked for its time; the cache is left alone.
    open spec fn time_told(&self, before: &Self, answer: Result<DeviceTime>) -> bool {
        self.ran(
            before,
            CachePolicy::Uncached,
            before.time_namespace(),
            "get_time"@,
            Json::Null,
            |answer: Result<Value>, told: Result<DeviceTime>| time_read(answer, told),
            answer,
        )
    }

    /// The bulb is asked for its timezone; the cache is left alone.
    open spec fn timezone_told(&self, before: &Self, answer: Result<DeviceTimeZone>) -> bool {
        self.ran(
            before,
            CachePolicy::Uncached,
            before.time_namespace(),
            "get_timezone"@,
            Json::Null,
            |answer: Result<Value>, told: Result<DeviceTimeZone>| timezone_read(answer, told),
            answer,
        )
    }

    fn time(&mut self) -> (answer: Result<DeviceTime>) {
        self.time_settings.get_time(&mut self.transport)
    }

    fn timezone(&mut self) -> (answer: Result<DeviceTimeZone>) {
        self.time_settings.get_timezone(&mut self.transport)
    }
}

impl<S: Socket> Cloud for LB110<S> {
    /// The cloud information is read through the cache.
    open spec fn cloud_asked(&self, before: &Self, answer: Result<CloudInfo>) -> bool {
        self.ran(
            before,
            CachePolicy::ReadThrough,
            before.cloud_namespace(),
            "get_info"@,
            Json::Null,
            |answer: Result<Value>, told: Result<CloudInfo>| cloud_read(answer, told),
            answer,
        )
    }

    /// The firmware on offer is read through the cache.
    open spec fn firmware_asked(&self, before: &Self, answer: Result<Vec<String>>) -> bool {
        self.ran(
            before,
            CachePolicy::ReadThrough,
            before.cloud_namespace(),
            "get_intl_fw_list"@,
            Json::Null,
            |answer: Result<Value>, told: Result<Vec<String>>| firmware_read(answer, told),
            answer,
        )
    }

    /// What is cached of the cloud namespace is dropped and the bulb is
    /// asked to bind.
    open spec fn bound(
        &self,
        before: &Self,
        username: Seq<char>,
        password: Seq<char>,
        answer: Result<()>,
    ) -> bool {
        self.ran(
            before,
            CachePolicy::InvalidateNamespace,
            before.cloud_namespace(),
            "bind"@,
            credentials_document(username, password),
            |answer: Result<Value>, told: Result<()>| acknowledged(answer, told),
            answer,
        )
    }

    /// What is cached of the cloud namespace is dropped and the bulb is
    /// asked to unbind.
    open spec fn unbound(&self, before: &Self, answer: Result<()>) -> bool {
        self.ran(
            before,
            CachePolicy::InvalidateNamespace,
            before.cloud_namespace(),
            "unbind"@,
            Json::Null,
            |answer: Result<Value>, told: Result<()>| acknowledged(answer, told),
            answer,
        )
    }

    /// What is cached of the cloud namespace is dropped and the bulb is
    /// pointed to the server.
    open spec fn server_set(&self, before: &Self, url: Seq<char>, answer: Result<()>) -> bool {
        self.ran(
            before,
            CachePolicy::InvalidateNamespace,
            before.cloud_namespace(),
            "set_server_url"@,
            server_document(url),
            |answer: Result<Value>, told: Result<()>| acknowledged(answer, told),
            answer,
        )
    }

    fn get_cloud_info(&mut self) -> (answer: Result<CloudInfo>) {
        self.cloud_settings.get_info(&mut self.transport)
    }

    fn bind(&mut self, username: &str, password: &str) -> (answer: Result<()>) {
        self.cloud_settings.bind(&mut self.transport, username, password)
    }

    fn unbind(&mut self) -> (answer: Result<()>) {
        self.cloud_settings.unbind(&mut self.transport)
    }

    fn get_firmware_list(&mut self) -> (answer: Result<Vec<String>>) {
        self.cloud_settings.get_firmware_list(&mut self.transport)
    }

    fn set_server_url(&mut self, url: &str) -> (answer: Result<()>) {
        self.cloud_settings.set_server_url(&mut self.transport, url)
    }
}

impl<S: Socket> Wlan for LB110<S> {
    /// The bulb is asked to scan; the cache is left alone. Where no scan
    /// timeout is given, the read timeout of the exchange is asked for.
    open spec fn scanned(
        &self,
        before: &Self,
        refresh: bool,
        timeout: Option<Duration>,
        answer: Result<Vec<AccessPoint>>,
    ) -> bool {
        self.ran(
            before,
            CachePolicy::Uncached,
            before.netif_namespace(),
            "get_scaninfo"@,
            scan_document(refresh, timeout, before.transport().settings()@.read_timeout),
            |answer: Result<Value>, told: Result<Vec<AccessPoint>>| scan_read(answer, told),
            answer,
        )
    }

    fn get_scan_info(&mut self, refresh: bool, timeout: Option<Duration>) -> (answer: Result<
        Vec<AccessPoint>,
    >) {
        self.netif.get_scan_info(&mut self.transport, refresh, timeout)
    }
}

impl<S: Socket> Emeter for LB110<S> {
    /// The system information is asked for; then the readings are read
    /// through the cache. Every bulb has a meter.
    open spec fn realtime_asked(&self, before: &Self, answer: Result<RealtimeStats>) -> bool {
        self.informed_then(
            before,
            answer,
            |mid: Self, info: LB110Info|
                self.ran(
                    &mid,
                    CachePolicy::ReadThrough,
                    mid.emeter_namespace(),
                    "get_realtime"@,
                    Json::Null,
                    |answer: Result<Value>, told: Result<RealtimeStats>|
                        realtime_read(answer, told),
                    answer,
                ),
        )
    }

    /// The system information is asked for; then the months are read
    /// through the cache.
    open spec fn months_asked(&self, before: &Self, year: u32, answer: Result<MonthStats>) -> bool {
        self.informed_then(
            before,
            answer,
            |mid: Self, info: LB110Info|
                self.ran(
                    &mid,
                    CachePolicy::ReadThrough,
                    mid.emeter_namespace(),
                    "get_monthstat"@,
                    month_stats_document(year),
                    |answer: Result<Value>, told: Result<MonthStats>| months_read(answer, told),
                    answer,
                ),
        )
    }

    /// The system information is asked for; then the days are read through
    /// the cache, for a month from 1 to 12. Any other month is an invalid
    /// parameter, and the bulb is not asked for it.
    open spec fn days_asked(
        &self,
        before: &Self,
        month: u32,
        year: u32,
        answer: Result<DayStats>,
    ) -> bool {
        self.informed_then(
            before,
            answer,
            |mid: Self, info: LB110Info|
                self.ran_plan(
                    &mid,
                    day_stats_plan(true, month, year),
                    CachePolicy::ReadThrough,
                    mid.emeter_namespace(),
                    "get_daystat"@,
                    |answer: Result<Value>, told: Result<DayStats>| days_read(answer, told),
                    answer,
                ),
        )
    }

    /// The system information is asked for; then what is cached of the
    /// meter's namespace is dropped and the bulb is asked to erase.
    open spec fn meter_erased(&self, before: &Self, answer: Result<()>) -> bool {
        self.informed_then(
            before,
            answer,
            |mid: Self, info: LB110Info|
                self.ran(
                    &mid,
                    CachePolicy::InvalidateNamespace,
                    mid.emeter_namespace(),
                    "erase_emeter_stat"@,
                    Json::Null,
                    |answer: Result<Value>, told: Result<()>| acknowledged(answer, told),
                    answer,
                ),
        )
    }

    fn get_emeter_realtime(&mut self) -> (answer: Result<RealtimeStats>) {
        let info = match self.info() {
            Ok(info) => info,
            Err(e) => {
                return Err(e);
            },
        };
        match require_emeter(info.has_emeter(), info.model(), "get_emeter_realtime") {
            Ok(_) => self.emeter.get_realtime(&mut self.transport),
            Err(e) => Err(e),
        }
    }

    fn get_emeter_month_stats(&mut self, year: u32) -> (answer: Result<MonthStats>) {
        let info = match self.info() {
            Ok(info) => info,
            Err(e) => {
                return Err(e);
            },
        };
        match require_emeter(info.has_emeter(), info.model(), "get_emeter_month_stats") {
            Ok(_) => self.emeter.get_month_stats(&mut self.transport, year),
            Err(e) => Err(e),
        }
    }

    fn get_emeter_day_stats(&mut self, month: u32, year: u32) -> (answer: Result<DayStats>) {
        let info = match self.info() {
            Ok(info) => info,
            Err(e) => {
                return Err(e);
            },
        };
        match day_stats_request(info.has_emeter(), info.model(), month, year) {
            Ok(_) => self.emeter.get_day_stats(&mut self.transport, month, year),
            Err(e) => Err(e),
        }
    }

    fn erase_emeter_stats(&mut self) -> (answer: Result<()>) {
        let info = match self.info() {
            Ok(info) => info,
            Err(e) => {
                return Err(e);
            },
        };
        match require_emeter(info.has_emeter(), info.model(), "erase_emeter_stats") {
            Ok(_) => self.emeter.erase_stats(&mut self.transport),
            Err(e) => Err(e),
        }
    }
}

impl<S: Socket> SysInfo for LB110<S> {
    type Info = LB110Info;

    /// The system information is read through the cache.
    open spec fn informed(&self, before: &Self, answer: Result<LB110Info>) -> bool {
        self.asked_info(before, answer)
    }

    fn sysinfo(&mut self) -> (answer: Result<LB110Info>) {
        self.info()
    }
}

} // verus!
