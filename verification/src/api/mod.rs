use vstd::prelude::*;
use crate::json::{JsonVal, as_bool, as_u32, as_i32, as_text, as_obj, obj_get, obj_get_from, get_obj, get_field, get_bool, get_u32, get_i32, get_text};
use crate::error::NanoLeafError;

pub mod state;
pub mod effects;
pub mod panel_layout;
pub mod rhythm;

verus! {

/// A scalar together with the inclusive bounds the device reports for it.
/// The device asserts `min <= value <= max`; the client accepts and
/// surfaces out-of-range values without rejecting them.
#[derive(Debug, Clone, Copy, PartialEq, Eq, Structural)]
pub struct BoundedValue {
    pub value: u32,
    pub max: u32,
    pub min: u32,
}

/// A planar position with an orientation, used both for a panel's place in
/// the layout and for the rhythm module's reported position.
#[derive(Debug, Clone, Copy, PartialEq, Eq, Structural)]
pub struct Position {
    pub x: i32,
    pub y: i32,
    pub o: i32,
}

/// The boolean under `key`, required: absent or non-boolean is a failure.
pub open spec fn req_bool(fs: Seq<(String, JsonVal)>, key: Seq<char>) -> Option<bool> {
    match obj_get(fs, key) {
        Some(w) => as_bool(w),
        None => None,
    }
}

/// The `u32` under `key`, required.
pub open spec fn req_u32(fs: Seq<(String, JsonVal)>, key: Seq<char>) -> Option<u32> {
    match obj_get(fs, key) {
        Some(w) => as_u32(w),
        None => None,
    }
}

/// The `i32` under `key`, required.
pub open spec fn req_i32(fs: Seq<(String, JsonVal)>, key: Seq<char>) -> Option<i32> {
    match obj_get(fs, key) {
        Some(w) => as_i32(w),
        None => None,
    }
}

/// The string under `key`, required.
pub open spec fn req_text(fs: Seq<(String, JsonVal)>, key: Seq<char>) -> Option<String> {
    match obj_get(fs, key) {
        Some(w) => as_text(w),
        None => None,
    }
}

/// Reads a required boolean field, as `req_bool` describes.
pub fn field_bool(fields: &Vec<(String, JsonVal)>, key: &str) -> (r: Option<bool>)
    ensures
        r == req_bool(fields@, key@),
{
    match get_field(fields, key) {
        Some(w) => get_bool(w),
        None => None,
    }
}

/// Reads a required `u32` field, as `req_u32` describes.
pub fn field_u32(fields: &Vec<(String, JsonVal)>, key: &str) -> (r: Option<u32>)
    ensures
        r == req_u32(fields@, key@),
{
    match get_field(fields, key) {
        Some(w) => get_u32(w),
        None => None,
    }
}

/// Reads a required `i32` field, as `req_i32` describes.
pub fn field_i32(fields: &Vec<(String, JsonVal)>, key: &str) -> (r: Option<i32>)
    ensures
        r == req_i32(fields@, key@),
{
    match get_field(fields, key) {
        Some(w) => get_i32(w),
        None => None,
    }
}

/// Borrows a required string field, as `req_text` describes.
pub fn field_text<'a>(fields: &'a Vec<(String, JsonVal)>, key: &str) -> (r: Option<&'a String>)
    ensures
        match r {
            Some(s) => req_text(fields@, key@) == Some(*s),
            None => req_text(fields@, key@) is None,
        },
{
    match get_field(fields, key) {
        Some(w) => get_text(w),
        None => None,
    }
}

/// The `BoundedValue` that `v` decodes to: an object with the three
/// required numeric fields `value`, `max` and `min`, in `u32` range.
/// No bound is checked against another: out-of-range readings surface.
pub open spec fn bounded_value_of(v: JsonVal) -> Option<BoundedValue> {
    match as_obj(v) {
        Some(fs) => match (req_u32(fs, "value"@), req_u32(fs, "max"@), req_u32(fs, "min"@)) {
            (Some(value), Some(max), Some(min)) => Some(BoundedValue { value, max, min }),
            _ => None,
        },
        None => None,
    }
}

/// Decodes a `BoundedValue`, exactly as `bounded_value_of` states.
pub fn decode_bounded_value(v: &JsonVal) -> (r: Result<BoundedValue, NanoLeafError>)
    ensures
        match r {
            Ok(b) => bounded_value_of(*v) == Some(b),
            Err(e) => bounded_value_of(*v) is None && e == NanoLeafError::Decode,
        },
{
    let fields = match get_obj(v) {
        Some(f) => f,
        None => {
            return Err(NanoLeafError::Decode);
        },
    };
    let value = match field_u32(fields, "value") {
        Some(x) => x,
        None => {
            return Err(NanoLeafError::Decode);
        },
    };
    let max = match field_u32(fields, "max") {
        Some(x) => x,
        None => {
            return Err(NanoLeafError::Decode);
        },
    };
    let min = match field_u32(fields, "min") {
        Some(x) => x,
        None => {
            return Err(NanoLeafError::Decode);
        },
    };
    Ok(BoundedValue { value, max, min })
}

/// The canonical wire object for a `BoundedValue`: exactly the fields
/// `value`, `max`, `min`, in that order. Decoding it yields `b` back,
/// so decoding and re-encoding round-trips the three numbers unchanged.
pub fn encode_bounded_value(b: &BoundedValue) -> (r: JsonVal)
    ensures
        bounded_value_of(r) == Some(*b),
{
    let mut fields: Vec<(String, JsonVal)> = Vec::new();
    fields.push(("value".to_owned(), JsonVal::Num(b.value as i64)));
    fields.push(("max".to_owned(), JsonVal::Num(b.max as i64)));
    fields.push(("min".to_owned(), JsonVal::Num(b.min as i64)));
    let ghost fs = fields@;
    let r = JsonVal::Obj(fields);
    proof {
        lemma_bounded_value_round_trip(r, *b, fs);
    }
    r
}

/// Decoding then re-encoding a `BoundedValue` round-trips its three
/// numbers unchanged: any wire object of the canonical shape
/// `encode_bounded_value` produces — the fields `value`, `max`, `min` in
/// that order, holding `b`'s numbers — decodes back to exactly `b`.
pub proof fn lemma_bounded_value_round_trip(
    v: JsonVal,
    b: BoundedValue,
    fs: Seq<(String, JsonVal)>,
)
    requires
        as_obj(v) == Some(fs),
        fs.len() == 3,
        fs[0].0@ == "value"@ && fs[0].1 == JsonVal::Num(b.value as i64),
        fs[1].0@ == "max"@ && fs[1].1 == JsonVal::Num(b.max as i64),
        fs[2].0@ == "min"@ && fs[2].1 == JsonVal::Num(b.min as i64),
    ensures
        bounded_value_of(v) == Some(b),
{
    reveal_strlit("value");
    reveal_strlit("max");
    reveal_strlit("min");
    assert("value"@.len() == 5 && "max"@.len() == 3 && "min"@.len() == 3);
    assert("max"@[1] == 'a' && "min"@[1] == 'i');
    assert(obj_get(fs, "value"@) == Some(fs[0].1));
    assert(obj_get_from(fs, "max"@, 1) == Some(fs[1].1));
    assert(obj_get(fs, "max"@) == Some(fs[1].1));
    assert(obj_get_from(fs, "min"@, 2) == Some(fs[2].1));
    assert(obj_get_from(fs, "min"@, 1) == Some(fs[2].1));
    assert(obj_get(fs, "min"@) == Some(fs[2].1));
}

/// The `Position` that `v` decodes to: an object with required numeric
/// fields `x`, `y` and `o` in `i32` range.
pub open spec fn position_of(v: JsonVal) -> Option<Position> {
    match as_obj(v) {
        Some(fs) => match (req_i32(fs, "x"@), req_i32(fs, "y"@), req_i32(fs, "o"@)) {
            (Some(x), Some(y), Some(o)) => Some(Position { x, y, o }),
            _ => None,
        },
        None => None,
    }
}

/// Decodes a `Position`, exactly as `position_of` states.
pub fn decode_position(v: &JsonVal) -> (r: Result<Position, NanoLeafError>)
    ensures
        match r {
            Ok(p) => position_of(*v) == Some(p),
            Err(e) => position_of(*v) is None && e == NanoLeafError::Decode,
        },
{
    let fields = match get_obj(v) {
        Some(f) => f,
        None => {
            return Err(NanoLeafError::Decode);
        },
    };
    let x = match field_i32(fields, "x") {
        Some(n) => n,
        None => {
            return Err(NanoLeafError::Decode);
        },
    };
    let y = match field_i32(fields, "y") {
        Some(n) => n,
        None => {
            return Err(NanoLeafError::Decode);
        },
    };
    let o = match field_i32(fields, "o") {
        Some(n) => n,
        None => {
            return Err(NanoLeafError::Decode);
        },
    };
    Ok(Position { x, y, o })
}

/// The device's full state snapshot: identity strings and the nested
/// state, effects, panel layout and rhythm records. Every field here is
/// required on the wire; a missing one is a decode failure, not a default.
#[derive(Debug, Clone)]
pub struct NanoLeafAPI {
    pub name: String,
    pub serial_no: String,
    pub manufacturer: String,
    pub firmware_version: String,
    pub model: String,
    pub state: state::State,
    pub effects: effects::Effects,
    pub panel_layout: panel_layout::PanelLayout,
    pub rhythm: rhythm::Rhythm,
}

/// The shape a `NanoLeafAPI` document must have: all five identity strings,
/// a decodable `state` and `rhythm`, a well-shaped `effects` and
/// `panelLayout`. Unknown extra fields are ignored.
pub open spec fn device_info_shape(v: JsonVal) -> bool {
    match as_obj(v) {
        Some(fs) => req_text(fs, "name"@) is Some && req_text(fs, "serialNo"@) is Some && req_text(
            fs,
            "manufacturer"@,
        ) is Some && req_text(fs, "firmwareVersion"@) is Some && req_text(fs, "model"@) is Some
            && (match obj_get(fs, "state"@) {
            Some(w) => state::state_of(w) is Some,
            None => false,
        }) && (match obj_get(fs, "effects"@) {
            Some(w) => effects::effects_shape(w),
            None => false,
        }) && (match obj_get(fs, "panelLayout"@) {
            Some(w) => panel_layout::panel_layout_shape(w),
            None => false,
        }) && (match obj_get(fs, "rhythm"@) {
            Some(w) => rhythm::rhythm_of(w) is Some,
            None => false,
        }),
        None => false,
    }
}

/// Ties a decoded `NanoLeafAPI` to the document it came from, field by field.
pub open spec fn is_device_info(info: NanoLeafAPI, v: JsonVal) -> bool {
    device_info_shape(v) && match as_obj(v) {
        Some(fs) => info.name == req_text(fs, "name"@)->0 && info.serial_no == req_text(
            fs,
            "serialNo"@,
        )->0 && info.manufacturer == req_text(fs, "manufacturer"@)->0 && info.firmware_version
            == req_text(fs, "firmwareVersion"@)->0 && info.model == req_text(fs, "model"@)->0
            && state::state_of(obj_get(fs, "state"@)->0) == Some(info.state) && effects::is_effects(
            info.effects,
            obj_get(fs, "effects"@)->0,
        ) && panel_layout::is_panel_layout(info.panel_layout, obj_get(fs, "panelLayout"@)->0)
            && rhythm::rhythm_of(obj_get(fs, "rhythm"@)->0) == Some(info.rhythm),
        None => false,
    }
}

/// Decodes a full `NanoLeafAPI` snapshot: succeeds exactly on documents of
/// the documented shape, and then returns the document's own values.
pub fn decode_device_info(v: &JsonVal) -> (r: Result<NanoLeafAPI, NanoLeafError>)
    ensures
        match r {
            Ok(info) => device_info_shape(*v) && is_device_info(info, *v),
            Err(e) => e == NanoLeafError::Decode && !device_info_shape(*v),
        },
{
    let fields = match get_obj(v) {
        Some(f) => f,
        None => {
            return Err(NanoLeafError::Decode);
        },
    };
    let name = match field_text(fields, "name") {
        Some(s) => s.clone(),
        None => {
            return Err(NanoLeafError::Decode);
        },
    };
    let serial_no = match field_text(fields, "serialNo") {
        Some(s) => s.clone(),
        None => {
            return Err(NanoLeafError::Decode);
        },
    };
    let manufacturer = match field_text(fields, "manufacturer") {
        Some(s) => s.clone(),
        None => {
            return Err(NanoLeafError::Decode);
        },
    };
    let firmware_version = match field_text(fields, "firmwareVersion") {
        Some(s) => s.clone(),
        None => {
            return Err(NanoLeafError::Decode);
        },
    };
    let model = match field_text(fields, "model") {
        Some(s) => s.clone(),
        None => {
            return Err(NanoLeafError::Decode);
        },
    };
    let state = match get_field(fields, "state") {
        Some(w) => match state::decode_state(w) {
            Ok(s) => s,
            Err(e) => {
                return Err(e);
            },
        },
        None => {
            return Err(NanoLeafError::Decode);
        },
    };
    let effects = match get_field(fields, "effects") {
        Some(w) => match effects::decode_effects(w) {
            Ok(e) => e,
            Err(e) => {
                return Err(e);
            },
        },
        None => {
            return Err(NanoLeafError::Decode);
        },
    };
    let panel_layout = match get_field(fields, "panelLayout") {
        Some(w) => match panel_layout::decode_panel_layout(w) {
            Ok(p) => p,
            Err(e) => {
                return Err(e);
            },
        },
        None => {
            return Err(NanoLeafError::Decode);
        },
    };
    let rhythm = match get_field(fields, "rhythm") {
        Some(w) => match rhythm::decode_rhythm(w) {
            Ok(x) => x,
            Err(e) => {
                return Err(e);
            },
        },
        None => {
            return Err(NanoLeafError::Decode);
        },
    };
    Ok(
        NanoLeafAPI {
            name,
            serial_no,
            manufacturer,
            firmware_version,
            model,
            state,
            effects,
            panel_layout,
            rhythm,
        },
    )
}

} // verus!
