use vstd::prelude::*;
use vstd::string::StringExecFns;
use serde_json::Value;
use crate::error::Result;
use crate::fields::{either, i32_at, i32_field, key_or_alias, u32_at, u32_field};
use crate::json::{json_of, Json};
use crate::proto::{Request, Socket};
use crate::transport::{CachePolicy, Transport};

verus! {

/// The `Time` trait represents devices that are capable of maintaining
/// and providing their time and timezone.
///
/// A device model says with [`Time::time_told`] and
/// [`Time::timezone_told`] what the commands guarantee; they are held to
/// it. A model that says nothing guarantees nothing.
pub trait Time {
    /// What holds of the device `self` and of the `answer` after the device
    /// `before` was asked for its time.
    open spec fn time_told(&self, before: &Self, answer: Result<DeviceTime>) -> bool {
        true
    }

    /// What holds of the device `self` and of the `answer` after the device
    /// `before` was asked for its timezone.
    open spec fn timezone_told(&self, before: &Self, answer: Result<DeviceTimeZone>) -> bool {
        true
    }

    /// Attempts to fetch the device's time. Returns the current
    /// date and time of the device without the timezone.
    fn time(&mut self) -> (answer: Result<DeviceTime>)
        ensures
            final(self).time_told(old(self), answer),
    ;

    /// Attempts to fetch the device's timezone. Returns the current
    /// timezone of the device.
    fn timezone(&mut self) -> (answer: Result<DeviceTimeZone>)
        ensures
            final(self).timezone_told(old(self), answer),
    ;
}

/// The device's time without the timezone.
#[derive(Clone, Copy, Debug, PartialEq, Eq, Structural)]
pub struct DeviceTime {
    pub year: i32,
    pub month: u32,
    pub day: u32,
    pub hour: u32,
    pub min: u32,
    pub sec: u32,
}

/// The device's timezone.
#[derive(Clone, Copy, Debug, PartialEq, Eq, Structural)]
pub struct DeviceTimeZone {
    pub index: i32,
}

/// The time that the reply `document` holds. The day of the month may
/// stand under `day` or under `mday`.
pub open spec fn time_in(document: Json) -> Option<DeviceTime> {
    match (
        i32_at(document, "year"@),
        u32_at(document, "month"@),
        u32_at(document, either(document, "day"@, "mday"@)),
        u32_at(document, "hour"@),
        u32_at(document, "min"@),
        u32_at(document, "sec"@),
    ) {
        (Some(year), Some(month), Some(day), Some(hour), Some(min), Some(sec)) => Some(
            DeviceTime { year, month, day, hour, min, sec },
        ),
        _ => None,
    }
}

/// The timezone that the reply `document` holds.
pub open spec fn timezone_in(document: Json) -> Option<DeviceTimeZone> {
    match i32_at(document, "index"@) {
        Some(index) => Some(DeviceTimeZone { index }),
        None => None,
    }
}

/// Whether `time` is what reading a time out of the `answer` of the device
/// gives: the time that the answer holds, or the error of the exchange, or
/// a serialization error for an answer that holds no time.
pub open spec fn time_read(answer: Result<Value>, time: Result<DeviceTime>) -> bool {
    match answer {
        Err(e) => time matches Err(failed) && failed == e,
        Ok(value) => match time_in(json_of(value)) {
            Some(held) => time matches Ok(t) && t == held,
            None => time matches Err(e) && e.is_unexpected(),
        },
    }
}

/// Whether `zone` is what reading a timezone out of the `answer` of the
/// device gives.
pub open spec fn timezone_read(answer: Result<Value>, zone: Result<DeviceTimeZone>) -> bool {
    match answer {
        Err(e) => zone matches Err(failed) && failed == e,
        Ok(value) => match timezone_in(json_of(value)) {
            Some(held) => zone matches Ok(z) && z == held,
            None => zone matches Err(e) && e.is_unexpected(),
        },
    }
}

/// The decimal digits of `n`, with a zero in front where `n` has one digit.
fn two_digits(n: u32) -> (text: String)
    ensures
        text@ == crate::util::two_digit_decimal(n as nat),
{
    let text = crate::util::two_digit_text(n);
    text
}

impl DeviceTime {
    /// Reads the time out of a reply.
    pub fn from_json(value: &Value) -> (r: Result<DeviceTime>)
        ensures
            match time_in(json_of(*value)) {
                Some(time) => r matches Ok(t) && t == time,
                None => r matches Err(e) && e.is_unexpected(),
            },
    {
        let year = match i32_field(value, "year") {
            Ok(n) => n,
            Err(e) => {
                return Err(e);
            },
        };
        let month = match u32_field(value, "month") {
            Ok(n) => n,
            Err(e) => {
                return Err(e);
            },
        };
        let day = match u32_field(value, key_or_alias(value, "day", "mday")) {
            Ok(n) => n,
            Err(e) => {
                return Err(e);
            },
        };
        let hour = match u32_field(value, "hour") {
            Ok(n) => n,
            Err(e) => {
                return Err(e);
            },
        };
        let min = match u32_field(value, "min") {
            Ok(n) => n,
            Err(e) => {
                return Err(e);
            },
        };
        let sec = match u32_field(value, "sec") {
            Ok(n) => n,
            Err(e) => {
                return Err(e);
            },
        };
        Ok(DeviceTime { year, month, day, hour, min, sec })
    }

    /// Returns the year number in the calendar date.
    pub fn year(&self) -> (year: i32)
        ensures
            year == self.year,
    {
        self.year
    }

    /// Returns the number starting from 1 to 12.
    pub fn month(&self) -> (month: u32)
        ensures
            month == self.month,
    {
        self.month
    }

    /// Returns the day of the month starting from 1.
    pub fn day(&self) -> (day: u32)
        ensures
            day == self.day,
    {
        self.day
    }

    /// Returns the hour number from 0 to 23.
    pub fn hour(&self) -> (hour: u32)
        ensures
            hour == self.hour,
    {
        self.hour
    }

    /// Returns the minute number from 0 to 59.
    pub fn minute(&self) -> (minute: u32)
        ensures
            minute == self.min,
    {
        self.min
    }

    /// Returns the second number from 0 to 59.
    pub fn second(&self) -> (second: u32)
        ensures
            second == self.sec,
    {
        self.sec
    }

    /// The time as `YYYY-MM-DD hh:mm:ss`.
    pub fn to_text(&self) -> (text: String)
        ensures
            text@ == self.text(),
    {
        crate::util::signed_decimal_text(self.year as i64).concat("-").concat(
            two_digits(self.month).as_str(),
        ).concat("-").concat(two_digits(self.day).as_str()).concat(" ").concat(
            two_digits(self.hour).as_str(),
        ).concat(":").concat(two_digits(self.min).as_str()).concat(":").concat(
            two_digits(self.sec).as_str(),
        )
    }

    /// The time as `YYYY-MM-DD hh:mm:ss`: the year in decimal digits, with
    /// its sign where it is negative, and each of the others in decimal
    /// digits, with a zero in front where it has one digit.
    pub open spec fn text(&self) -> Seq<char> {
        crate::util::signed_decimal(self.year as int) + "-"@ + crate::util::two_digit_decimal(
            self.month as nat,
        ) + "-"@ + crate::util::two_digit_decimal(self.day as nat) + " "@
            + crate::util::two_digit_decimal(self.hour as nat) + ":"@
            + crate::util::two_digit_decimal(self.min as nat) + ":"@
            + crate::util::two_digit_decimal(self.sec as nat)
    }
}

impl DeviceTimeZone {
    /// Reads the timezone out of a reply.
    pub fn from_json(value: &Value) -> (r: Result<DeviceTimeZone>)
        ensures
            match timezone_in(json_of(*value)) {
                Some(zone) => r matches Ok(z) && z == zone,
                None => r matches Err(e) && e.is_unexpected(),
            },
    {
        match i32_field(value, "index") {
            Ok(index) => Ok(DeviceTimeZone { index }),
            Err(e) => Err(e),
        }
    }

    /// The index of the timezone in the device's table of timezones.
    pub fn index(&self) -> (index: i32)
        ensures
            index == self.index,
    {
        self.index
    }
}

/// The time commands of a device.
pub struct TimeSettings {
    ns: String,
}

impl TimeSettings {
    /// The namespace that the commands are addressed to.
    pub closed spec fn namespace(&self) -> Seq<char> {
        self.ns@
    }

    /// The time commands in the namespace `ns`.
    pub fn new(ns: &str) -> (settings: TimeSettings)
        ensures
            settings.namespace() == ns@,
    {
        TimeSettings { ns: String::from_str(ns) }
    }

    /// Asks the device for its time. The cache is left alone.
    pub fn get_time<S: Socket>(&self, transport: &mut Transport<S>) -> (r: Result<DeviceTime>)
        ensures
            final(transport).executed(
                old(transport),
                CachePolicy::Uncached,
                self.namespace(),
                "get_time"@,
                Json::Null,
                |answer: Result<Value>, told: Result<DeviceTime>| time_read(answer, told),
                r,
            ),
            r matches Err(e) ==> e.is_io() || e.is_json(),
    {
        let request = Request::new(self.ns.as_str(), "get_time", None);
        match transport.execute(request, CachePolicy::Uncached) {
            Ok(response) => DeviceTime::from_json(&response),
            Err(e) => Err(e),
        }
    }

    /// Asks the device for its timezone. The cache is left alone.
    pub fn get_timezone<S: Socket>(
        &self,
        transport: &mut Transport<S>,
    ) -> (r: Result<DeviceTimeZone>)
        ensures
            final(transport).executed(
                old(transport),
                CachePolicy::Uncached,
                self.namespace(),
                "get_timezone"@,
                Json::Null,
                |answer: Result<Value>, told: Result<DeviceTimeZone>| timezone_read(answer, told),
                r,
            ),
            r matches Err(e) ==> e.is_io() || e.is_json(),
    {
        let request = Request::new(self.ns.as_str(), "get_timezone", None);
        match transport.execute(request, CachePolicy::Uncached) {
            Ok(response) => DeviceTimeZone::from_json(&response),
            Err(e) => Err(e),
        }
    }
}

} // verus!
