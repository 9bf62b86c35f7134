//! Smart bulbs.

pub mod lb110;
pub mod lighting;

use vstd::prelude::*;
use std::time::Duration;
use crate::command::cloud::{Cloud, CloudInfo};
use crate::command::device::Device;
use crate::command::emeter::{DayStats, Emeter, MonthStats, RealtimeStats};
use crate::command::sys::Sys;
use crate::command::sysinfo::SysInfo;
use crate::command::time::{DeviceTime, DeviceTimeZone, Time};
use crate::command::wlan::{AccessPoint, Wlan};
use crate::config::{default_for, Config};
use crate::error::Result;
use crate::proto::{Host, Socket};
use crate::json::Json;
use crate::transport::CachePolicy;
use serde_json::Value;
use self::lb110::{on_read, Capability, LB110Info, DEFAULT_CACHE_SECS, LB110};
use self::lighting::HSV;

verus! {

/// A smart bulb.
///
/// The handle forwards each command to the device model `T`. What a
/// command does is decided there; for the model [`LB110`] the commands
/// below say what holds of their outcome.
pub struct Bulb<T> {
    device: T,
}

impl<T> Bulb<T> {
    /// The device model behind the handle.
    pub closed spec fn model_of(&self) -> T {
        self.device
    }
}

impl<T: Device> Bulb<T> {
    /// Turns on the bulb.
    pub fn turn_on(&mut self) -> (answer: Result<()>)
        ensures
            final(self).model_of().switched(&old(self).model_of(), true, answer),
    {
        self.device.turn_on()
    }

    /// Turns off the bulb.
    pub fn turn_off(&mut self) -> (answer: Result<()>)
        ensures
            final(self).model_of().switched(&old(self).model_of(), false, answer),
    {
        self.device.turn_off()
    }
}

impl<T: Sys> Bulb<T> {
    /// Reboots the bulb after the given duration. In case when
    /// the delay duration is not provided, the bulb is set to
    /// reboot after a default delay of 1 second.
    pub fn reboot(&mut self, delay: Option<Duration>) -> (answer: Result<()>)
        ensures
            final(self).model_of().restarted(&old(self).model_of(), false, delay, answer),
    {
        self.device.reboot(delay)
    }

    /// Factory resets the bulb after the given duration. In case when the delay
    /// duration is not provided, the bulb is set to reset after a default delay
    /// of 1 second.
    pub fn factory_reset(&mut self, delay: Option<Duration>) -> (answer: Result<()>)
        ensures
            final(self).model_of().restarted(&old(self).model_of(), true, delay, answer),
    {
        self.device.factory_reset(delay)
    }
}

impl<T: Time> Bulb<T> {
    /// Returns the current date and time of the device without the timezone.
    pub fn time(&mut self) -> (answer: Result<DeviceTime>)
        ensures
            final(self).model_of().time_told(&old(self).model_of(), answer),
    {
        self.device.time()
    }

    /// Returns the current timezone of the device.
    pub fn timezone(&mut self) -> (answer: Result<DeviceTimeZone>)
        ensures
            final(self).model_of().timezone_told(&old(self).model_of(), answer),
    {
        self.device.timezone()
    }
}

impl<T: Cloud> Bulb<T> {
    /// Returns what the device reports about its cloud connection.
    pub fn get_cloud_info(&mut self) -> (answer: Result<CloudInfo>)
        ensures
            final(self).model_of().cloud_asked(&old(self).model_of(), answer),
    {
        self.device.get_cloud_info()
    }

    /// Binds the device to a cloud account.
    pub fn bind(&mut self, username: &str, password: &str) -> (answer: Result<()>)
        ensures
            final(self).model_of().bound(&old(self).model_of(), username@, password@, answer),
    {
        self.device.bind(username, password)
    }

    /// Unbinds the device from its cloud account.
    pub fn unbind(&mut self) -> (answer: Result<()>)
        ensures
            final(self).model_of().unbound(&old(self).model_of(), answer),
    {
        self.device.unbind()
    }

    /// Returns the firmware that the cloud offers the device.
    pub fn get_firmware_list(&mut self) -> (answer: Result<Vec<String>>)
        ensures
            final(self).model_of().firmware_asked(&old(self).model_of(), answer),
    {
        self.device.get_firmware_list()
    }

    /// Points the device to another cloud server.
    pub fn set_server_url(&mut self, url: &str) -> (answer: Result<()>)
        ensures
            final(self).model_of().server_set(&old(self).model_of(), url@, answer),
    {
        self.device.set_server_url(url)
    }
}

impl<T: Wlan> Bulb<T> {
    /// Returns the wireless networks that the device sees.
    pub fn get_scan_info(&mut self, refresh: bool, timeout: Option<Duration>) -> (answer: Result<
        Vec<AccessPoint>,
    >)
        ensures
            final(self).model_of().scanned(&old(self).model_of(), refresh, timeout, answer),
    {
        self.device.get_scan_info(refresh, timeout)
    }
}

impl<T: Emeter> Bulb<T> {
    /// Returns the meter readings of the moment.
    pub fn get_emeter_realtime(&mut self) -> (answer: Result<RealtimeStats>)
        ensures
            final(self).model_of().realtime_asked(&old(self).model_of(), answer),
    {
        self.device.get_emeter_realtime()
    }

    /// Returns the energy drawn in each month of `year`.
    pub fn get_emeter_month_stats(&mut self, year: u32) -> (answer: Result<MonthStats>)
        ensures
            final(self).model_of().months_asked(&old(self).model_of(), year, answer),
    {
        self.device.get_emeter_month_stats(year)
    }

    /// Returns the energy drawn on each day of `month`.
    pub fn get_emeter_day_stats(&mut self, month: u32, year: u32) -> (answer: Result<DayStats>)
        ensures
            final(self).model_of().days_asked(&old(self).model_of(), month, year, answer),
    {
        self.device.get_emeter_day_stats(month, year)
    }

    /// Erases what the meter has recorded.
    pub fn erase_emeter_stats(&mut self) -> (answer: Result<()>)
        ensures
            final(self).model_of().meter_erased(&old(self).model_of(), answer),
    {
        self.device.erase_emeter_stats()
    }
}

impl<T: SysInfo> Bulb<T> {
    /// Returns the bulb's system information.
    pub fn sysinfo(&mut self) -> (answer: Result<T::Info>)
        ensures
            final(self).model_of().informed(&old(self).model_of(), answer),
    {
        self.device.sysinfo()
    }

    /// Returns the bulb's system information; another name for
    /// `sysinfo`.
    pub fn sys_info(&mut self) -> (answer: Result<T::Info>)
        ensures
            final(self).model_of().informed(&old(self).model_of(), answer),
    {
        self.device.sysinfo()
    }
}

impl<S: Socket> Bulb<LB110<S>> {
    /// Creates a new Bulb instance from the given local address, over
    /// `socket`. Its responses are cached for three seconds.
    pub fn new(host: Host, socket: S) -> (bulb: Bulb<LB110<S>>)
        ensures
            bulb.model_of().namespaces_set(),
            exists|config: Config| #[trigger]
                bulb.model_of().transport().built_from(config) && default_for(
                    config@,
                    host,
                    Some(DEFAULT_CACHE_SECS),
                ),
    {
        Bulb { device: LB110::new(host, socket) }
    }

    /// Creates a new Bulb instance as `config` describes it, over `socket`.
    pub fn with_config(config: Config, socket: S) -> (bulb: Bulb<LB110<S>>)
        ensures
            bulb.model_of().namespaces_set(),
            bulb.model_of().transport().built_from(config),
    {
        Bulb { device: LB110::with_config(config, socket) }
    }

    /// Returns the software version of the device.
    pub fn sw_ver(&mut self) -> (r: Result<String>)
        ensures
            final(self).model_of().told_of_info(
                &old(self).model_of(),
                r,
                |info: LB110Info| info.sw_ver,
            ),
    {
        self.device.sw_ver()
    }

    /// Returns the hardware version of the device.
    pub fn hw_ver(&mut self) -> (r: Result<String>)
        ensures
            final(self).model_of().told_of_info(
                &old(self).model_of(),
                r,
                |info: LB110Info| info.hw_ver,
            ),
    {
        self.device.hw_ver()
    }

    /// Returns the model of the device.
    pub fn model(&mut self) -> (r: Result<String>)
        ensures
            final(self).model_of().told_of_info(
                &old(self).model_of(),
                r,
                |info: LB110Info| info.model,
            ),
    {
        self.device.model()
    }

    /// Returns the name (alias) of the device.
    pub fn alias(&mut self) -> (r: Result<String>)
        ensures
            final(self).model_of().told_of_info(
                &old(self).model_of(),
                r,
                |info: LB110Info| info.alias,
            ),
    {
        self.device.alias()
    }

    /// Returns the mac address of the device.
    pub fn mac_address(&mut self) -> (r: Result<String>)
        ensures
            final(self).model_of().told_of_info(
                &old(self).model_of(),
                r,
                |info: LB110Info| info.mic_mac,
            ),
    {
        self.device.mac_address()
    }

    /// Returns whether the bulb supports brightness changes.
    pub fn is_dimmable(&mut self) -> (r: Result<bool>)
        ensures
            final(self).model_of().told_of_info(
                &old(self).model_of(),
                r,
                |info: LB110Info| info.is_dimmable == 1,
            ),
    {
        self.device.is_dimmable()
    }

    /// Returns whether the bulb supports color changes.
    pub fn is_color(&mut self) -> (r: Result<bool>)
        ensures
            final(self).model_of().told_of_info(
                &old(self).model_of(),
                r,
                |info: LB110Info| info.is_color == 1,
            ),
    {
        self.device.is_color()
    }

    /// Returns whether the bulb supports color temperature changes.
    pub fn is_variable_color_temp(&mut self) -> (r: Result<bool>)
        ensures
            final(self).model_of().told_of_info(
                &old(self).model_of(),
                r,
                |info: LB110Info| info.is_variable_color_temp == 1,
            ),
    {
        self.device.is_variable_color_temp()
    }

    /// Returns the Wi-Fi signal strength (rssi) of the device.
    pub fn rssi(&mut self) -> (r: Result<i64>)
        ensures
            final(self).model_of().told_of_info(
                &old(self).model_of(),
                r,
                |info: LB110Info| info.rssi,
            ),
    {
        self.device.rssi()
    }

    /// Returns whether the device is currently switched on.
    pub fn is_on(&mut self) -> (r: Result<bool>)
        ensures
            final(self).model_of().ran(
                &old(self).model_of(),
                CachePolicy::ReadThrough,
                old(self).model_of().lighting_namespace(),
                "get_light_state"@,
                Json::Null,
                |answer: Result<Value>, told: Result<bool>| on_read(answer, told),
                r,
            ),
    {
        self.device.is_on()
    }

    /// Returns the current HSV (Hue, Saturation, Value) state of the bulb.
    pub fn hsv(&mut self) -> (r: Result<HSV>)
        ensures
            final(self).model_of().informed_then(
                &old(self).model_of(),
                r,
                |mid: LB110<S>, info: LB110Info|
                    final(self).model_of().untouched(&mid) && info.colour_told(r),
            ),
    {
        self.device.hsv()
    }

    /// Sets HSV (Hue, Saturation, Value) state of the bulb: a hue of at
    /// most 360 degrees, a saturation and a brightness of at most 100
    /// percent. Anything above is refused as an invalid parameter.
    pub fn set_hsv(&mut self, hue: u32, saturation: u32, value: u32) -> (r: Result<()>)
        ensures
            final(self).model_of().informed_then(
                &old(self).model_of(),
                r,
                |mid: LB110<S>, info: LB110Info|
                    final(self).model_of().light_changed(
                        &mid,
                        info.hsv_plan(hue, saturation, value),
                        r,
                    ),
            ),
    {
        self.device.set_hsv(hue, saturation, value)
    }

    /// Returns whether the device supports `emeter` stats. Every bulb does.
    pub fn has_emeter(&mut self) -> (r: Result<bool>)
        ensures
            *final(self) == *old(self),
            r matches Ok(has) && has,
    {
        self.device.has_emeter()
    }

    /// Sets the hue of the bulb, if the bulb supports color changes.
    /// Hue is color portion of the HSV model which is expressed as a
    /// number from 0 to 360 degrees.
    pub fn set_hue(&mut self, hue: u32) -> (r: Result<()>)
        ensures
            final(self).model_of().informed_then(
                &old(self).model_of(),
                r,
                |mid: LB110<S>, info: LB110Info|
                    final(self).model_of().light_changed(&mid, info.hue_plan(hue), r),
            ),
    {
        self.device.set_hue(hue)
    }

    /// Returns the hue value (expressed as a number from 0 to 360 degrees)
    /// of the bulb, if the bulb supports color changes.
    pub fn hue(&mut self) -> (r: Result<u32>)
        ensures
            final(self).model_of().told_of_colour(
                &old(self).model_of(),
                Capability::Colour,
                r,
                |hsv: HSV| hsv.hue,
            ),
    {
        self.device.hue()
    }

    /// Sets the % saturation of the bulb, if the bulb supports color changes.
    /// Saturation determines the amount of gray in a particular color and is
    /// expressed as a number from 0 to 100 percent.
    pub fn set_saturation(&mut self, saturation: u32) -> (r: Result<()>)
        ensures
            final(self).model_of().informed_then(
                &old(self).model_of(),
                r,
                |mid: LB110<S>, info: LB110Info|
                    final(self).model_of().light_changed(&mid, info.saturation_plan(saturation), r),
            ),
    {
        self.device.set_saturation(saturation)
    }

    /// Returns the current % saturation of the bulb, if the bulb supports
    /// color changes.
    pub fn saturation(&mut self) -> (r: Result<u32>)
        ensures
            final(self).model_of().told_of_colour(
                &old(self).model_of(),
                Capability::Colour,
                r,
                |hsv: HSV| hsv.saturation,
            ),
    {
        self.device.saturation()
    }

    /// Sets the % brightness of the bulb, if the bulb supports brightness changes.
    /// Brightness determines the intensity of the color and is expressed
    /// as a number from 0 to 100 percent.
    pub fn set_brightness(&mut self, brightness: u32) -> (r: Result<()>)
        ensures
            final(self).model_of().informed_then(
                &old(self).model_of(),
                r,
                |mid: LB110<S>, info: LB110Info|
                    final(self).model_of().light_changed(&mid, info.brightness_plan(brightness), r),
            ),
    {
        self.device.set_brightness(brightness)
    }

    /// Returns the current % brightness of the bulb, if the bulb supports
    /// brightness changes.
    pub fn brightness(&mut self) -> (r: Result<u32>)
        ensures
            final(self).model_of().told_of_colour(
                &old(self).model_of(),
                Capability::Dimming,
                r,
                |hsv: HSV| hsv.brightness,
            ),
    {
        self.device.brightness()
    }

    /// Sets the color temperature of the bulb, if the bulb supports color
    /// changes.
    pub fn set_color_temp(&mut self, color_temp: u32) -> (r: Result<()>)
        ensures
            final(self).model_of().informed_then(
                &old(self).model_of(),
                r,
                |mid: LB110<S>, info: LB110Info|
                    final(self).model_of().light_changed(&mid, info.color_temp_plan(color_temp), r),
            ),
    {
        self.device.set_color_temp(color_temp)
    }

    /// Returns the current color temperature of the bulb.
    pub fn color_temp(&mut self) -> (r: Result<u32>)
        ensures
            final(self).model_of().told_of_colour(
                &old(self).model_of(),
                Capability::Temperature,
                r,
                |hsv: HSV| hsv.color_temp,
            ),
    {
        self.device.color_temp()
    }
}

} // verus!
