use vstd::prelude::*;
use vstd::string::StringExecFns;
use serde_json::Value;
use crate::error;
use crate::error::Result;
use crate::fields::{array_at, array_field, singleton, u32_at, u32_field};
use crate::json;
use crate::json::{empty_object, json_of, Json};
use crate::proto::{Request, Socket};
use crate::error::Refusal;
use crate::transport::{acknowledged, planned, CachePolicy, Plan, Transport};
use crate::util::{labelled, numbered};

verus! {

/// The `Emeter` trait represents devices that meter the energy they draw.
///
/// A device model says with the four predicates below what the commands
/// guarantee; they are held to it. A model that says nothing guarantees
/// nothing.
pub trait Emeter {
    /// What holds of the device `self` and of the `answer` after the device
    /// `before` was asked for the readings of the moment.
    open spec fn realtime_asked(&self, before: &Self, answer: Result<RealtimeStats>) -> bool {
        true
    }

    /// What holds of the device `self` and of the `answer` after the device
    /// `before` was asked for the months of `year`.
    open spec fn months_asked(&self, before: &Self, year: u32, answer: Result<MonthStats>) -> bool {
        true
    }

    /// What holds of the device `self` and of the `answer` after the device
    /// `before` was asked for the days of `month`.
    open spec fn days_asked(
        &self,
        before: &Self,
        month: u32,
        year: u32,
        answer: Result<DayStats>,
    ) -> bool {
        true
    }

    /// What holds of the device `self` and of the `answer` after the device
    /// `before` was asked to erase what its meter recorded.
    open spec fn meter_erased(&self, before: &Self, answer: Result<()>) -> bool {
        true
    }

    fn get_emeter_realtime(&mut self) -> (answer: Result<RealtimeStats>)
        ensures
            final(self).realtime_asked(old(self), answer),
    ;

    fn get_emeter_month_stats(&mut self, year: u32) -> (answer: Result<MonthStats>)
        ensures
            final(self).months_asked(old(self), year, answer),
    ;

    fn get_emeter_day_stats(&mut self, month: u32, year: u32) -> (answer: Result<DayStats>)
        ensures
            final(self).days_asked(old(self), month, year, answer),
    ;

    fn erase_emeter_stats(&mut self) -> (answer: Result<()>)
        ensures
            final(self).meter_erased(old(self), answer),
    ;
}

/// The meter readings of the moment, as the device reports them.
#[derive(Debug)]
pub struct RealtimeStats {
    pub stats: Value,
}

/// The energy drawn on one day.
#[derive(Clone, Copy, Debug, PartialEq, Eq, Structural)]
pub struct DayStat {
    pub energy_wh: u32,
    pub day: u32,
    pub month: u32,
    pub year: u32,
}

/// The energy drawn day by day.
#[derive(Debug)]
pub struct DayStats {
    pub day_list: Vec<DayStat>,
}

/// The energy drawn in one month.
#[derive(Clone, Copy, Debug, PartialEq, Eq, Structural)]
pub struct MonthStat {
    pub energy_wh: u32,
    pub month: u32,
    pub year: u32,
}

/// The energy drawn month by month.
#[derive(Debug)]
pub struct MonthStats {
    pub month_list: Vec<MonthStat>,
}

/// The day that `document` holds.
pub open spec fn day_in(document: Json) -> Option<DayStat> {
    match (
        u32_at(document, "energy_wh"@),
        u32_at(document, "day"@),
        u32_at(document, "month"@),
        u32_at(document, "year"@),
    ) {
        (Some(energy_wh), Some(day), Some(month), Some(year)) => Some(
            DayStat { energy_wh, day, month, year },
        ),
        _ => None,
    }
}

/// The month that `document` holds.
pub open spec fn month_in(document: Json) -> Option<MonthStat> {
    match (u32_at(document, "energy_wh"@), u32_at(document, "month"@), u32_at(document, "year"@)) {
        (Some(energy_wh), Some(month), Some(year)) => Some(MonthStat { energy_wh, month, year }),
        _ => None,
    }
}

/// Whether `list` holds the days of the reply `document`, in the same order.
pub open spec fn day_stats(list: Seq<DayStat>, document: Json) -> bool {
    match array_at(document, "day_list"@) {
        Some(items) => list.len() == items.len() && forall|i: int|
            0 <= i < list.len() ==> day_in(#[trigger] items[i]) == Some(list[i]),
        None => false,
    }
}

/// Whether `document` can be read as a list of days.
pub open spec fn days_readable(document: Json) -> bool {
    match array_at(document, "day_list"@) {
        Some(items) => forall|i: int| 0 <= i < items.len() ==> day_in(#[trigger] items[i]) is Some,
        None => false,
    }
}

/// Whether `list` holds the months of the reply `document`, in the same
/// order.
pub open spec fn month_stats(list: Seq<MonthStat>, document: Json) -> bool {
    match array_at(document, "month_list"@) {
        Some(items) => list.len() == items.len() && forall|i: int|
            0 <= i < list.len() ==> month_in(#[trigger] items[i]) == Some(list[i]),
        None => false,
    }
}

/// Whether `document` can be read as a list of months.
pub open spec fn months_readable(document: Json) -> bool {
    match array_at(document, "month_list"@) {
        Some(items) => forall|i: int|
            0 <= i < items.len() ==> month_in(#[trigger] items[i]) is Some,
        None => false,
    }
}

impl DayStat {
    /// Reads one day.
    pub fn from_json(value: &Value) -> (r: Result<DayStat>)
        ensures
            match day_in(json_of(*value)) {
                Some(day) => r matches Ok(d) && d == day,
                None => r matches Err(e) && e.is_unexpected(),
            },
    {
        let energy_wh = match u32_field(value, "energy_wh") {
            Ok(n) => n,
            Err(e) => {
                return Err(e);
            },
        };
        let day = match u32_field(value, "day") {
            Ok(n) => n,
            Err(e) => {
                return Err(e);
            },
        };
        let month = match u32_field(value, "month") {
            Ok(n) => n,
            Err(e) => {
                return Err(e);
            },
        };
        let year = match u32_field(value, "year") {
            Ok(n) => n,
            Err(e) => {
                return Err(e);
            },
        };
        Ok(DayStat { energy_wh, day, month, year })
    }
}

impl MonthStat {
    /// Reads one month.
    pub fn from_json(value: &Value) -> (r: Result<MonthStat>)
        ensures
            match month_in(json_of(*value)) {
                Some(month) => r matches Ok(m) && m == month,
                None => r matches Err(e) && e.is_unexpected(),
            },
    {
        let energy_wh = match u32_field(value, "energy_wh") {
            Ok(n) => n,
            Err(e) => {
                return Err(e);
            },
        };
        let month = match u32_field(value, "month") {
            Ok(n) => n,
            Err(e) => {
                return Err(e);
            },
        };
        let year = match u32_field(value, "year") {
            Ok(n) => n,
            Err(e) => {
                return Err(e);
            },
        };
        Ok(MonthStat { energy_wh, month, year })
    }
}

impl DayStats {
    /// Reads the days out of a reply.
    pub fn from_json(value: &Value) -> (r: Result<DayStats>)
        ensures
            match r {
                Ok(stats) => day_stats(stats.day_list@, json_of(*value)),
                Err(e) => !days_readable(json_of(*value)) && e.is_unexpected(),
            },
    {
        let items = match array_field(value, "day_list") {
            Ok(items) => items,
            Err(e) => {
                return Err(e);
            },
        };
        let ghost documents = array_at(json_of(*value), "day_list"@).unwrap();
        let mut list: Vec<DayStat> = Vec::new();
        let mut i: usize = 0;
        while i < items.len()
            invariant
                i <= items@.len(),
                array_at(json_of(*value), "day_list"@) == Some(documents),
                documents == Seq::new(items@.len(), |k: int| json_of(items@[k])),
                list@.len() == i,
                forall|k: int| 0 <= k < i ==> day_in(#[trigger] documents[k]) == Some(list@[k]),
            decreases items@.len() - i,
        {
            match DayStat::from_json(&items[i]) {
                Ok(day) => {
                    list.push(day);
                },
                Err(e) => {
                    proof {
                        let listed = array_at(json_of(*value), "day_list"@)->Some_0;
                        assert(day_in(listed[i as int]) is None);
                    }
                    return Err(e);
                },
            }
            i += 1;
        }
        Ok(DayStats { day_list: list })
    }
}

impl MonthStats {
    /// Reads the months out of a reply.
    pub fn from_json(value: &Value) -> (r: Result<MonthStats>)
        ensures
            match r {
                Ok(stats) => month_stats(stats.month_list@, json_of(*value)),
                Err(e) => !months_readable(json_of(*value)) && e.is_unexpected(),
            },
    {
        let items = match array_field(value, "month_list") {
            Ok(items) => items,
            Err(e) => {
                return Err(e);
            },
        };
        let ghost documents = array_at(json_of(*value), "month_list"@).unwrap();
        let mut list: Vec<MonthStat> = Vec::new();
        let mut i: usize = 0;
        while i < items.len()
            invariant
                i <= items@.len(),
                array_at(json_of(*value), "month_list"@) == Some(documents),
                documents == Seq::new(items@.len(), |k: int| json_of(items@[k])),
                list@.len() == i,
                forall|k: int| 0 <= k < i ==> month_in(#[trigger] documents[k]) == Some(list@[k]),
            decreases items@.len() - i,
        {
            match MonthStat::from_json(&items[i]) {
                Ok(month) => {
                    list.push(month);
                },
                Err(e) => {
                    proof {
                        let listed = array_at(json_of(*value), "month_list"@)->Some_0;
                        assert(month_in(listed[i as int]) is None);
                    }
                    return Err(e);
                },
            }
            i += 1;
        }
        Ok(MonthStats { month_list: list })
    }
}

impl RealtimeStats {
    /// Reads the readings of the moment out of a reply, which must be an
    /// object; its fields are kept as they are.
    pub fn from_json(value: &Value) -> (r: Result<RealtimeStats>)
        ensures
            match r {
                Ok(stats) => json_of(*value) is Object && json_of(stats.stats) == json_of(*value),
                Err(e) => !(json_of(*value) is Object) && e.is_unexpected(),
            },
    {
        if json::is_object(value) {
            Ok(RealtimeStats { stats: value.clone() })
        } else {
            Err(error::unexpected("realtime"))
        }
    }
}

/// The argument that asks for the days of a month:
/// `{"month": .., "year": ..}`.
pub fn day_stats_argument(month: u32, year: u32) -> (arg: Value)
    ensures
        json_of(arg) == day_stats_document(month, year),
{
    let mut arg = json::new_object();
    json::set_member(&mut arg, "month", json::from_u64(month as u64));
    json::set_member(&mut arg, "year", json::from_u64(year as u64));
    arg
}

/// The argument that asks for the days of a month:
/// `{"month": .., "year": ..}`.
pub open spec fn day_stats_document(month: u32, year: u32) -> Json {
    empty_object().with("month"@, Json::Int(month as int)).with("year"@, Json::Int(year as int))
}

/// The argument that asks for the months of a year: `{"year": ..}`.
pub open spec fn month_stats_document(year: u32) -> Json {
    empty_object().with("year"@, Json::Int(year as int))
}

/// Whether `stats` is what reading the readings of the moment out of the
/// `answer` of the device gives.
pub open spec fn realtime_read(answer: Result<Value>, stats: Result<RealtimeStats>) -> bool {
    match answer {
        Err(e) => stats matches Err(failed) && failed == e,
        Ok(value) => match stats {
            Ok(found) => json_of(value) is Object && json_of(found.stats) == json_of(value),
            Err(e) => !(json_of(value) is Object) && e.is_unexpected(),
        },
    }
}

/// Whether `stats` is what reading days out of the `answer` of the device
/// gives.
pub open spec fn days_read(answer: Result<Value>, stats: Result<DayStats>) -> bool {
    match answer {
        Err(e) => stats matches Err(failed) && failed == e,
        Ok(value) => match stats {
            Ok(found) => day_stats(found.day_list@, json_of(value)),
            Err(e) => !days_readable(json_of(value)) && e.is_unexpected(),
        },
    }
}

/// Whether `stats` is what reading months out of the `answer` of the device
/// gives.
pub open spec fn months_read(answer: Result<Value>, stats: Result<MonthStats>) -> bool {
    match answer {
        Err(e) => stats matches Err(failed) && failed == e,
        Ok(value) => match stats {
            Ok(found) => month_stats(found.month_list@, json_of(value)),
            Err(e) => !months_readable(json_of(value)) && e.is_unexpected(),
        },
    }
}

/// Whether a device with a meter, or without, may be asked `operation`: a
/// device without meter does not support it.
pub fn require_emeter(has_emeter: bool, model: &str, operation: &str) -> (r: Result<()>)
    ensures
        match r {
            Ok(_) => has_emeter,
            Err(e) => !has_emeter && e.is_unsupported(),
        },
{
    if has_emeter {
        Ok(())
    } else {
        Err(error::unsupported_operation(labelled(model, operation).as_str()))
    }
}

/// What a device is asked for the days of `month`: a device without meter
/// does not support it, and a month outside 1 to 12 is an invalid
/// parameter.
pub open spec fn day_stats_plan(has_emeter: bool, month: u32, year: u32) -> Plan {
    if !has_emeter {
        Err(Refusal::Unsupported)
    } else if !(1 <= month <= 12) {
        Err(Refusal::InvalidParameter)
    } else {
        Ok(day_stats_document(month, year))
    }
}

/// The argument that asks a device for the days of `month`, where the
/// device may be asked.
pub fn day_stats_request(has_emeter: bool, model: &str, month: u32, year: u32) -> (r: Result<Value>)
    ensures
        planned(day_stats_plan(has_emeter, month, year), r),
{
    if !has_emeter {
        Err(error::unsupported_operation(labelled(model, "get_emeter_day_stats").as_str()))
    } else if !crate::util::u32_in_range(month, 1, 12) {
        let what = numbered("get_emeter_day_stats: month=", month, " (valid range: 1-12)");
        Err(error::invalid_parameter(labelled(model, what.as_str()).as_str()))
    } else {
        Ok(day_stats_argument(month, year))
    }
}

/// The energy meter commands of a device.
pub struct EmeterStats {
    ns: String,
}

impl EmeterStats {
    /// The namespace that the commands are addressed to.
    pub closed spec fn namespace(&self) -> Seq<char> {
        self.ns@
    }

    /// The energy meter commands in the namespace `ns`.
    pub fn new(ns: &str) -> (emeter: EmeterStats)
        ensures
            emeter.namespace() == ns@,
    {
        EmeterStats { ns: String::from_str(ns) }
    }

    /// The readings of the moment, from the cache while they are valid there.
    pub fn get_realtime<S: Socket>(
        &self,
        transport: &mut Transport<S>,
    ) -> (r: Result<RealtimeStats>)
        ensures
            final(transport).executed(
                old(transport),
                CachePolicy::ReadThrough,
                self.namespace(),
                "get_realtime"@,
                Json::Null,
                |answer: Result<Value>, told: Result<RealtimeStats>| realtime_read(answer, told),
                r,
            ),
            r matches Err(e) ==> e.is_io() || e.is_json(),
    {
        let request = Request::new(self.ns.as_str(), "get_realtime", None);
        match transport.execute(request, CachePolicy::ReadThrough) {
            Ok(response) => RealtimeStats::from_json(&response),
            Err(e) => Err(e),
        }
    }

    /// The energy drawn on each day of a month, from the cache while it is
    /// valid there. The cache finds the entry by the command alone: within the
    /// time to live, the days of one month answer for any other.
    pub fn get_day_stats<S: Socket>(
        &self,
        transport: &mut Transport<S>,
        month: u32,
        year: u32,
    ) -> (r: Result<DayStats>)
        ensures
            final(transport).executed(
                old(transport),
                CachePolicy::ReadThrough,
                self.namespace(),
                "get_daystat"@,
                day_stats_document(month, year),
                |answer: Result<Value>, told: Result<DayStats>| days_read(answer, told),
                r,
            ),
            r matches Err(e) ==> e.is_io() || e.is_json(),
    {
        let arg = day_stats_argument(month, year);
        let request = Request::new(self.ns.as_str(), "get_daystat", Some(arg));
        match transport.execute(request, CachePolicy::ReadThrough) {
            Ok(response) => DayStats::from_json(&response),
            Err(e) => Err(e),
        }
    }

    /// The energy drawn in each month of a year, from the cache while it is
    /// valid there. The cache finds the entry by the command alone: within the
    /// time to live, the months of one year answer for any other.
    pub fn get_month_stats<S: Socket>(
        &self,
        transport: &mut Transport<S>,
        year: u32,
    ) -> (r: Result<MonthStats>)
        ensures
            final(transport).executed(
                old(transport),
                CachePolicy::ReadThrough,
                self.namespace(),
                "get_monthstat"@,
                month_stats_document(year),
                |answer: Result<Value>, told: Result<MonthStats>| months_read(answer, told),
                r,
            ),
            r matches Err(e) ==> e.is_io() || e.is_json(),
    {
        let arg = singleton("year", json::from_u64(year as u64));
        let request = Request::new(self.ns.as_str(), "get_monthstat", Some(arg));
        match transport.execute(request, CachePolicy::ReadThrough) {
            Ok(response) => MonthStats::from_json(&response),
            Err(e) => Err(e),
        }
    }

    /// Erases what the meter has recorded. What is cached of the meter's
    /// namespace is dropped first.
    pub fn erase_stats<S: Socket>(&self, transport: &mut Transport<S>) -> (r: Result<()>)
        ensures
            final(transport).executed(
                old(transport),
                CachePolicy::InvalidateNamespace,
                self.namespace(),
                "erase_emeter_stat"@,
                Json::Null,
                |answer: Result<Value>, told: Result<()>| acknowledged(answer, told),
                r,
            ),
            r matches Err(e) ==> e.is_io() || e.is_json(),
    {
        let request = Request::new(self.ns.as_str(), "erase_emeter_stat", None);
        match transport.execute(request, CachePolicy::InvalidateNamespace) {
            Ok(response) => Ok(()),
            Err(e) => Err(e),
        }
    }
}

} // verus!
