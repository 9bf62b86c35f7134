use vstd::prelude::*;
use vstd::string::StringExecFns;
use serde_json::Value;
use crate::error;
use crate::error::Result;
use crate::fields::{field, is_vacant, u32_at, u32_field, u64_at, u64_field, vacant};
use crate::json::{json_of, Json};
use crate::proto::{Request, Socket};
use crate::transport::{CachePolicy, Transport};

verus! {

/// The HSV (Hue, Saturation, Value) state of the bulb.
#[derive(Clone, Copy, Debug, PartialEq, Eq, Structural)]
pub struct HSV {
    pub hue: u32,
    pub saturation: u32,
    pub brightness: u32,
    pub color_temp: u32,
}

/// The light state of a bulb: whether it is on, its colour while it is on,
/// and the colour it will take when switched on.
#[derive(Clone, Copy, Debug, PartialEq, Eq, Structural)]
pub struct LightState {
    pub on_off: u64,
    pub hsv: Option<HSV>,
    pub dft_on_state: Option<HSV>,
}

/// The colour that `document` holds.
pub open spec fn hsv_in(document: Json) -> Option<HSV> {
    match (
        u32_at(document, "hue"@),
        u32_at(document, "saturation"@),
        u32_at(document, "brightness"@),
        u32_at(document, "color_temp"@),
    ) {
        (Some(hue), Some(saturation), Some(brightness), Some(color_temp)) => Some(
            HSV { hue, saturation, brightness, color_temp },
        ),
        _ => None,
    }
}

/// The light state that `document` holds. The colour stands beside
/// `on_off`, where the bulb reports one. The colour for switching on stands
/// under `dft_on_state`; where that field is there and not null, it must
/// hold a colour.
pub open spec fn light_state_in(document: Json) -> Option<LightState> {
    match u64_at(document, "on_off"@) {
        None => None,
        Some(on_off) => if vacant(document, "dft_on_state"@) {
            Some(LightState { on_off, hsv: hsv_in(document), dft_on_state: None })
        } else {
            match hsv_in(document.get("dft_on_state"@)->Some_0) {
                Some(dft) => Some(
                    LightState { on_off, hsv: hsv_in(document), dft_on_state: Some(dft) },
                ),
                None => None,
            }
        },
    }
}

impl HSV {
    /// Reads a colour.
    pub fn from_json(value: &Value) -> (r: Result<HSV>)
        ensures
            match hsv_in(json_of(*value)) {
                Some(hsv) => r matches Ok(h) && h == hsv,
                None => r matches Err(e) && e.is_unexpected(),
            },
    {
        let hue = match u32_field(value, "hue") {
            Ok(n) => n,
            Err(e) => {
                return Err(e);
            },
        };
        let saturation = match u32_field(value, "saturation") {
            Ok(n) => n,
            Err(e) => {
                return Err(e);
            },
        };
        let brightness = match u32_field(value, "brightness") {
            Ok(n) => n,
            Err(e) => {
                return Err(e);
            },
        };
        let color_temp = match u32_field(value, "color_temp") {
            Ok(n) => n,
            Err(e) => {
                return Err(e);
            },
        };
        Ok(HSV { hue, saturation, brightness, color_temp })
    }

    /// Returns the `hue` (color portion) of the HSV model, expressed
    /// as a number from 0 to 360 degrees.
    pub fn hue(&self) -> (hue: u32)
        ensures
            hue == self.hue,
    {
        self.hue
    }

    /// Returns the `saturation` (amount of gray in particular color)
    /// of the HSV model, expressed as a number from 0 to 100 percent.
    pub fn saturation(&self) -> (saturation: u32)
        ensures
            saturation == self.saturation,
    {
        self.saturation
    }

    /// Returns the `value` or `brightness` (intensity of the color)
    /// of the HSV model, expressed as a number from 0 to 100 percent.
    pub fn value(&self) -> (value: u32)
        ensures
            value == self.brightness,
    {
        self.brightness
    }

    /// Returns the colour temperature, in kelvin.
    pub fn color_temp(&self) -> (color_temp: u32)
        ensures
            color_temp == self.color_temp,
    {
        self.color_temp
    }
}

impl LightState {
    /// Reads a light state.
    pub fn from_json(value: &Value) -> (r: Result<LightState>)
        ensures
            match light_state_in(json_of(*value)) {
                Some(state) => r matches Ok(s) && s == state,
                None => r matches Err(e) && e.is_unexpected(),
            },
    {
        let on_off = match u64_field(value, "on_off") {
            Ok(n) => n,
            Err(e) => {
                return Err(e);
            },
        };
        let hsv = match HSV::from_json(value) {
            Ok(hsv) => Some(hsv),
            Err(_) => None,
        };
        let dft_on_state = if is_vacant(value, "dft_on_state") {
            None
        } else {
            let dft = match field(value, "dft_on_state") {
                Ok(dft) => dft,
                Err(e) => {
                    return Err(e);
                },
            };
            match HSV::from_json(dft) {
                Ok(hsv) => Some(hsv),
                Err(e) => {
                    return Err(e);
                },
            }
        };
        Ok(LightState { on_off, hsv, dft_on_state })
    }

    /// Whether the bulb is on.
    pub fn is_on(&self) -> (on: bool)
        ensures
            on == (self.on_off == 1),
    {
        self.on_off == 1
    }

    /// The colour that counts: the current one while the bulb is on, the
    /// one for switching on while it is off.
    pub open spec fn colour(&self) -> Option<HSV> {
        if self.on_off == 1 {
            self.hsv
        } else {
            self.dft_on_state
        }
    }

    /// The colour of the bulb: the current one while the bulb is on, the
    /// one for switching on while it is off. A light state that lacks the
    /// colour in question is a serialization error.
    pub fn hsv(&self) -> (r: Result<HSV>)
        ensures
            match self.colour() {
                Some(hsv) => r matches Ok(h) && h == hsv,
                None => r matches Err(e) && e.is_unexpected(),
            },
    {
        let colour = if self.on_off == 1 {
            self.hsv
        } else {
            self.dft_on_state
        };
        match colour {
            Some(hsv) => Ok(hsv),
            None => Err(error::unexpected("light_state")),
        }
    }
}

/// Whether `state` is what reading a light state out of the `answer` of
/// the bulb gives: the light state that the answer holds, or the error of
/// the exchange, or a serialization error for an answer that holds none.
pub open spec fn light_state_read(answer: Result<Value>, state: Result<LightState>) -> bool {
    match answer {
        Err(e) => state matches Err(failed) && failed == e,
        Ok(value) => match light_state_in(json_of(value)) {
            Some(held) => state matches Ok(s) && s == held,
            None => state matches Err(e) && e.is_unexpected(),
        },
    }
}

/// Whether `done` is what a change of the light state makes of the
/// `answer` of the bulb: done where the answer holds the new light state.
pub open spec fn light_state_set(answer: Result<Value>, done: Result<()>) -> bool {
    match answer {
        Err(e) => done matches Err(failed) && failed == e,
        Ok(value) => match light_state_in(json_of(value)) {
            Some(_) => done is Ok,
            None => done matches Err(e) && e.is_unexpected(),
        },
    }
}

/// The argument of a request as a document; a request without argument
/// carries null.
pub open spec fn argument_of(arg: Option<Value>) -> Json {
    match arg {
        Some(value) => json_of(value),
        None => Json::Null,
    }
}

/// The lighting commands of a bulb.
pub struct Lighting {
    ns: String,
}

impl Lighting {
    /// The namespace that the commands are addressed to.
    pub closed spec fn namespace(&self) -> Seq<char> {
        self.ns@
    }

    /// The lighting commands in the namespace `ns`.
    pub fn new(ns: &str) -> (lighting: Lighting)
        ensures
            lighting.namespace() == ns@,
    {
        Lighting { ns: String::from_str(ns) }
    }

    /// The light state of the bulb, from the cache while it is valid there.
    pub fn get_light_state<S: Socket>(
        &self,
        transport: &mut Transport<S>,
    ) -> (r: Result<LightState>)
        ensures
            final(transport).executed(
                old(transport),
                CachePolicy::ReadThrough,
                self.namespace(),
                "get_light_state"@,
                Json::Null,
                |answer: Result<Value>, told: Result<LightState>| light_state_read(answer, told),
                r,
            ),
            r matches Err(e) ==> e.is_io() || e.is_json(),
    {
        let request = Request::new(self.ns.as_str(), "get_light_state", None);
        match transport.execute(request, CachePolicy::ReadThrough) {
            Ok(response) => LightState::from_json(&response),
            Err(e) => Err(e),
        }
    }

    /// Changes the light state of the bulb as `arg` says. What is cached of
    /// the lighting namespace is dropped first. The reply must hold the new
    /// light state.
    pub fn set_light_state<S: Socket>(
        &self,
        transport: &mut Transport<S>,
        arg: Option<Value>,
    ) -> (r: Result<()>)
        ensures
            final(transport).executed(
                old(transport),
                CachePolicy::InvalidateNamespace,
                self.namespace(),
                "transition_light_state"@,
                argument_of(arg),
                |answer: Result<Value>, told: Result<()>| light_state_set(answer, told),
                r,
            ),
            r matches Err(e) ==> e.is_io() || e.is_json(),
    {
        let request = Request::new(self.ns.as_str(), "transition_light_state", arg);
        match transport.execute(request, CachePolicy::InvalidateNamespace) {
            Ok(response) => match LightState::from_json(&response) {
                Ok(_) => Ok(()),
                Err(e) => Err(e),
            },
            Err(e) => Err(e),
        }
    }
}

} // verus!
