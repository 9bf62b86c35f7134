//! Smart plugs.

pub mod hs100;
pub mod timer;

use vstd::prelude::*;
use std::time::Duration;
use crate::command::cloud::{Cloud, CloudInfo};
use crate::command::device::Device;
use crate::command::emeter::{DayStats, Emeter, MonthStats, RealtimeStats};
use crate::command::sys::Sys;
use crate::command::sysinfo::SysInfo;
use crate::command::time::{DeviceTime, DeviceTimeZone, Time};
use crate::command::wlan::{AccessPoint, Wlan};
use crate::config::{default_for, Config};
use crate::error::Result;
use crate::proto::{Host, Socket};
use self::hs100::{led_document, HS100Info, Location, HS100};
use self::timer::{Rule, RuleList, Timer};

verus! {

/// A smart plug.
///
/// The handle forwards each command to the device model `T`. What a
/// command does is decided there; for the model [`HS100`] the commands
/// below say what holds of their outcome.
pub struct Plug<T> {
    device: T,
}

impl<T> Plug<T> {
    /// The device model behind the handle.
    pub closed spec fn model_of(&self) -> T {
        self.device
    }
}

impl<T: Device> Plug<T> {
    /// Turns on the plug.
    pub fn turn_on(&mut self) -> (answer: Result<()>)
        ensures
            final(self).model_of().switched(&old(self).model_of(), true, answer),
    {
        self.device.turn_on()
    }

    /// Turns off the plug.
    pub fn turn_off(&mut self) -> (answer: Result<()>)
        ensures
            final(self).model_of().switched(&old(self).model_of(), false, answer),
    {
        self.device.turn_off()
    }
}

impl<T: Sys> Plug<T> {
    /// Reboots the plug after the given duration. In case when the delay
    /// duration is not provided, the plug is set to reboot after a default
    /// delay of 1 second.
    pub fn reboot(&mut self, delay: Option<Duration>) -> (answer: Result<()>)
        ensures
            final(self).model_of().restarted(&old(self).model_of(), false, delay, answer),
    {
        self.device.reboot(delay)
    }

    /// Factory resets the plug after the given duration. In case when the
    /// delay duration is not provided, the plug is set to reset after a
    /// default delay of 1 second.
    pub fn factory_reset(&mut self, delay: Option<Duration>) -> (answer: Result<()>)
        ensures
            final(self).model_of().restarted(&old(self).model_of(), true, delay, answer),
    {
        self.device.factory_reset(delay)
    }
}

impl<T: Time> Plug<T> {
    /// Returns the current date and time of the device without the timezone.
    pub fn time(&mut self) -> (answer: Result<DeviceTime>)
        ensures
            final(self).model_of().time_told(&old(self).model_of(), answer),
    {
        self.device.time()
    }

    /// Returns the current timezone of the device.
    pub fn timezone(&mut self) -> (answer: Result<DeviceTimeZone>)
        ensures
            final(self).model_of().timezone_told(&old(self).model_of(), answer),
    {
        self.device.timezone()
    }
}

impl<T: Timer> Plug<T> {
    /// Returns the timer rules of the plug.
    pub fn get_timer_rules(&mut self) -> (answer: Result<RuleList>)
        ensures
            final(self).model_of().rules_asked(&old(self).model_of(), answer),
    {
        self.device.get_timer_rules()
    }

    /// Adds a timer rule and returns the id that the plug gave it.
    pub fn add_timer_rule(&mut self, rule: Rule) -> (answer: Result<String>)
        ensures
            final(self).model_of().rule_added(&old(self).model_of(), rule, answer),
    {
        self.device.add_timer_rule(rule)
    }

    /// Replaces the timer rule `id` by `rule`.
    pub fn edit_timer_rule(&mut self, id: &str, rule: Rule) -> (answer: Result<()>)
        ensures
            final(self).model_of().rule_edited(&old(self).model_of(), id@, rule, answer),
    {
        self.device.edit_timer_rule(id, rule)
    }

    /// Deletes the timer rule `id`.
    pub fn delete_timer_rule_with_id(&mut self, id: &str) -> (answer: Result<()>)
        ensures
            final(self).model_of().rule_deleted(&old(self).model_of(), id@, answer),
    {
        self.device.delete_timer_rule_with_id(id)
    }

    /// Deletes every timer rule.
    pub fn delete_all_timer_rules(&mut self) -> (answer: Result<()>)
        ensures
            final(self).model_of().rules_deleted(&old(self).model_of(), answer),
    {
        self.device.delete_all_timer_rules()
    }
}

impl<T: Cloud> Plug<T> {
    /// Returns what the device reports about its cloud connection.
    pub fn get_cloud_info(&mut self) -> (answer: Result<CloudInfo>)
        ensures
            final(self).model_of().cloud_asked(&old(self).model_of(), answer),
    {
        self.device.get_cloud_info()
    }

    /// Binds the device to a cloud account.
    pub fn bind(&mut self, username: &str, password: &str) -> (answer: Result<()>)
        ensures
            final(self).model_of().bound(&old(self).model_of(), username@, password@, answer),
    {
        self.device.bind(username, password)
    }

    /// Unbinds the device from its cloud account.
    pub fn unbind(&mut self) -> (answer: Result<()>)
        ensures
            final(self).model_of().unbound(&old(self).model_of(), answer),
    {
        self.device.unbind()
    }

    /// Returns the firmware that the cloud offers the device.
    pub fn get_firmware_list(&mut self) -> (answer: Result<Vec<String>>)
        ensures
            final(self).model_of().firmware_asked(&old(self).model_of(), answer),
    {
        self.device.get_firmware_list()
    }

    /// Points the device to another cloud server.
    pub fn set_server_url(&mut self, url: &str) -> (answer: Result<()>)
        ensures
            final(self).model_of().server_set(&old(self).model_of(), url@, answer),
    {
        self.device.set_server_url(url)
    }
}

impl<T: Wlan> Plug<T> {
    /// Returns the wireless networks that the device sees.
    pub fn get_scan_info(&mut self, refresh: bool, timeout: Option<Duration>) -> (answer: Result<
        Vec<AccessPoint>,
    >)
        ensures
            final(self).model_of().scanned(&old(self).model_of(), refresh, timeout, answer),
    {
        self.device.get_scan_info(refresh, timeout)
    }
}

impl<T: Emeter> Plug<T> {
    /// Returns the meter readings of the moment.
    pub fn get_emeter_realtime(&mut self) -> (answer: Result<RealtimeStats>)
        ensures
            final(self).model_of().realtime_asked(&old(self).model_of(), answer),
    {
        self.device.get_emeter_realtime()
    }

    /// Returns the energy drawn in each month of `year`.
    pub fn get_emeter_month_stats(&mut self, year: u32) -> (answer: Result<MonthStats>)
        ensures
            final(self).model_of().months_asked(&old(self).model_of(), year, answer),
    {
        self.device.get_emeter_month_stats(year)
    }

    /// Returns the energy drawn on each day of `month`.
    pub fn get_emeter_day_stats(&mut self, month: u32, year: u32) -> (answer: Result<DayStats>)
        ensures
            final(self).model_of().days_asked(&old(self).model_of(), month, year, answer),
    {
        self.device.get_emeter_day_stats(month, year)
    }

    /// Erases what the meter has recorded.
    pub fn erase_emeter_stats(&mut self) -> (answer: Result<()>)
        ensures
            final(self).model_of().meter_erased(&old(self).model_of(), answer),
    {
        self.device.erase_emeter_stats()
    }
}

impl<T: SysInfo> Plug<T> {
    /// Returns the plug's system information.
    pub fn sysinfo(&mut self) -> (answer: Result<T::Info>)
        ensures
            final(self).model_of().informed(&old(self).model_of(), answer),
    {
        self.device.sysinfo()
    }

    /// Returns the plug's system information; another name for
    /// `sysinfo`.
    pub fn sys_info(&mut self) -> (answer: Result<T::Info>)
        ensures
            final(self).model_of().informed(&old(self).model_of(), answer),
    {
        self.device.sysinfo()
    }
}

impl<S: Socket> Plug<HS100<S>> {
    /// Creates a new Plug instance from the given local address, over
    /// `socket`. Its responses are not cached.
    pub fn new(host: Host, socket: S) -> (plug: Plug<HS100<S>>)
        ensures
            plug.model_of().namespaces_set(),
            exists|config: Config| #[trigger]
                plug.model_of().transport().built_from(config) && default_for(
                    config@,
                    host,
                    None,
                ),
    {
        Plug { device: HS100::new(host, socket) }
    }

    /// Creates a new Plug instance as `config` describes it, over `socket`.
    pub fn with_config(config: Config, socket: S) -> (plug: Plug<HS100<S>>)
        ensures
            plug.model_of().namespaces_set(),
            plug.model_of().transport().built_from(config),
    {
        Plug { device: HS100::with_config(config, socket) }
    }

    /// Returns the software version of the device.
    pub fn sw_ver(&mut self) -> (r: Result<String>)
        ensures
            final(self).model_of().told_of_info(
                &old(self).model_of(),
                r,
                |info: HS100Info| info.sw_ver,
            ),
    {
        self.device.sw_ver()
    }

    /// Returns the hardware version of the device.
    pub fn hw_ver(&mut self) -> (r: Result<String>)
        ensures
            final(self).model_of().told_of_info(
                &old(self).model_of(),
                r,
                |info: HS100Info| info.hw_ver,
            ),
    {
        self.device.hw_ver()
    }

    /// Returns the model of the device.
    pub fn model(&mut self) -> (r: Result<String>)
        ensures
            final(self).model_of().told_of_info(
                &old(self).model_of(),
                r,
                |info: HS100Info| info.model,
            ),
    {
        self.device.model()
    }

    /// Returns the name (alias) of the device.
    pub fn alias(&mut self) -> (r: Result<String>)
        ensures
            final(self).model_of().told_of_info(
                &old(self).model_of(),
                r,
                |info: HS100Info| info.alias,
            ),
    {
        self.device.alias()
    }

    /// Returns the mac address of the device.
    pub fn mac_address(&mut self) -> (r: Result<String>)
        ensures
            final(self).model_of().told_of_info(
                &old(self).model_of(),
                r,
                |info: HS100Info| info.mac,
            ),
    {
        self.device.mac_address()
    }

    /// Returns the Wi-Fi signal strength (rssi) of the device.
    pub fn rssi(&mut self) -> (r: Result<i64>)
        ensures
            final(self).model_of().told_of_info(
                &old(self).model_of(),
                r,
                |info: HS100Info| info.rssi,
            ),
    {
        self.device.rssi()
    }

    /// Returns the location of the device.
    pub fn location(&mut self) -> (r: Result<Location>)
        ensures
            final(self).model_of().told_of_info(
                &old(self).model_of(),
                r,
                |info: HS100Info| info.location,
            ),
    {
        self.device.location()
    }

    /// Returns whether the device is currently switched on.
    pub fn is_on(&mut self) -> (r: Result<bool>)
        ensures
            final(self).model_of().told_of_info(
                &old(self).model_of(),
                r,
                |info: HS100Info| info.relay_state == 1,
            ),
    {
        self.device.is_on()
    }

    /// Returns whether the device LED is currently switched on.
    pub fn is_led_on(&mut self) -> (r: Result<bool>)
        ensures
            final(self).model_of().told_of_info(
                &old(self).model_of(),
                r,
                |info: HS100Info| info.led_off == 0,
            ),
    {
        self.device.is_led_on()
    }

    /// Turns on the device's LED. What is cached of the system namespace
    /// is dropped first.
    pub fn turn_on_led(&mut self) -> (r: Result<()>)
        ensures
            final(self).model_of().system_changed(
                &old(self).model_of(),
                "set_led_off"@,
                led_document(false),
                r,
            ),
    {
        self.device.turn_on_led()
    }

    /// Turns off the device's LED. What is cached of the system namespace
    /// is dropped first.
    pub fn turn_off_led(&mut self) -> (r: Result<()>)
        ensures
            final(self).model_of().system_changed(
                &old(self).model_of(),
                "set_led_off"@,
                led_document(true),
                r,
            ),
    {
        self.device.turn_off_led()
    }

    /// Returns whether the device supports `emeter` stats.
    pub fn has_emeter(&mut self) -> (r: Result<bool>)
        ensures
            final(self).model_of().told_of_info(
                &old(self).model_of(),
                r,
                |info: HS100Info| info.meters(),
            ),
    {
        self.device.has_emeter()
    }
}

} // verus!
