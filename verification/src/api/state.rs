use vstd::prelude::*;
use crate::json::{JsonVal, as_obj, obj_get, get_obj, get_field};
use crate::api::{BoundedValue, bounded_value_of, decode_bounded_value, req_bool, req_text, field_bool, field_text};
use crate::error::NanoLeafError;

verus! {

/// The one structure shared between the read and the write shapes: a
/// single wrapped boolean.
#[derive(Debug, Clone, Copy, PartialEq, Eq, Structural)]
pub struct On {
    pub value: bool,
}

/// The device's mutable state: power, four bounded scalars, and the
/// free-form color mode string (not a closed vocabulary).
#[derive(Debug, Clone)]
pub struct State {
    pub on: On,
    pub brightness: BoundedValue,
    pub hue: BoundedValue,
    pub sat: BoundedValue,
    pub ct: BoundedValue,
    pub color_mode: String,
}

/// The `On` that `v` decodes to: an object with the required boolean
/// field `value`.
pub open spec fn on_of(v: JsonVal) -> Option<On> {
    match as_obj(v) {
        Some(fs) => match req_bool(fs, "value"@) {
            Some(value) => Some(On { value }),
            _ => None,
        },
        None => None,
    }
}

/// Decodes an `On`, exactly as `on_of` states.
pub fn decode_on(v: &JsonVal) -> (r: Result<On, NanoLeafError>)
    ensures
        match r {
            Ok(o) => on_of(*v) == Some(o),
            Err(e) => on_of(*v) is None && e == NanoLeafError::Decode,
        },
{
    let fields = match get_obj(v) {
        Some(f) => f,
        None => {
            return Err(NanoLeafError::Decode);
        },
    };
    let value = match field_bool(fields, "value") {
        Some(b) => b,
        None => {
            return Err(NanoLeafError::Decode);
        },
    };
    Ok(On { value })
}

/// The canonical wire object for an `On`: exactly the field `value`.
/// Decoding it yields `o` back, so decoding and re-encoding round-trips
/// the boolean unchanged.
pub fn encode_on(o: &On) -> (r: JsonVal)
    ensures
        on_of(r) == Some(*o),
{
    let fields: Vec<(String, JsonVal)> = vec![("value".to_owned(), JsonVal::Bool(o.value))];
    let ghost fs = fields@;
    let r = JsonVal::Obj(fields);
    proof {
        lemma_on_round_trip(r, *o, fs);
    }
    r
}

/// Decoding then re-encoding an `On` round-trips its value unchanged: any
/// wire object of the canonical shape `encode_on` produces — one field
/// `value` holding `o.value` — decodes back to exactly `o`.
pub proof fn lemma_on_round_trip(v: JsonVal, o: On, fs: Seq<(String, JsonVal)>)
    requires
        as_obj(v) == Some(fs),
        fs.len() == 1,
        fs[0].0@ == "value"@,
        fs[0].1 == JsonVal::Bool(o.value),
    ensures
        on_of(v) == Some(o),
{
    assert(obj_get(fs, "value"@) == Some(fs[0].1));
}

/// The `State` that `v` decodes to: required `on`, four required bounded
/// scalars, and the required `colorMode` string.
pub open spec fn state_of(v: JsonVal) -> Option<State> {
    match as_obj(v) {
        Some(fs) => match (
            obj_get(fs, "on"@),
            obj_get(fs, "brightness"@),
            obj_get(fs, "hue"@),
            obj_get(fs, "sat"@),
            obj_get(fs, "ct"@),
            req_text(fs, "colorMode"@),
        ) {
            (Some(w_on), Some(w_b), Some(w_h), Some(w_s), Some(w_c), Some(color_mode)) => match (
                on_of(w_on),
                bounded_value_of(w_b),
                bounded_value_of(w_h),
                bounded_value_of(w_s),
                bounded_value_of(w_c),
            ) {
                (Some(on), Some(brightness), Some(hue), Some(sat), Some(ct)) => Some(
                    State { on, brightness, hue, sat, ct, color_mode },
                ),
                _ => None,
            },
            _ => None,
        },
        None => None,
    }
}

/// Decodes a `State`, exactly as `state_of` states.
pub fn decode_state(v: &JsonVal) -> (r: Result<State, NanoLeafError>)
    ensures
        match r {
            Ok(s) => state_of(*v) == Some(s),
            Err(e) => state_of(*v) is None && e == NanoLeafError::Decode,
        },
{
    let fields = match get_obj(v) {
        Some(f) => f,
        None => {
            return Err(NanoLeafError::Decode);
        },
    };
    let on = match get_field(fields, "on") {
        Some(w) => match decode_on(w) {
            Ok(o) => o,
            Err(e) => {
                return Err(e);
            },
        },
        None => {
            return Err(NanoLeafError::Decode);
        },
    };
    let brightness = match get_field(fields, "brightness") {
        Some(w) => match decode_bounded_value(w) {
            Ok(b) => b,
            Err(e) => {
                return Err(e);
            },
        },
        None => {
            return Err(NanoLeafError::Decode);
        },
    };
    let hue = match get_field(fields, "hue") {
        Some(w) => match decode_bounded_value(w) {
            Ok(b) => b,
            Err(e) => {
                return Err(e);
            },
        },
        None => {
            return Err(NanoLeafError::Decode);
        },
    };
    let sat = match get_field(fields, "sat") {
        Some(w) => match decode_bounded_value(w) {
            Ok(b) => b,
            Err(e) => {
                return Err(e);
            },
        },
        None => {
            return Err(NanoLeafError::Decode);
        },
    };
    let ct = match get_field(fields, "ct") {
        Some(w) => match decode_bounded_value(w) {
            Ok(b) => b,
            Err(e) => {
                return Err(e);
            },
        },
        None => {
            return Err(NanoLeafError::Decode);
        },
    };
    let color_mode = match field_text(fields, "colorMode") {
        Some(s) => s.clone(),
        None => {
            return Err(NanoLeafError::Decode);
        },
    };
    Ok(State { on, brightness, hue, sat, ct, color_mode })
}

} // verus!
