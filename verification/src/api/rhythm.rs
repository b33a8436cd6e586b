use vstd::prelude::*;
use crate::json::{JsonVal, as_bool, as_u32, as_text, as_obj, obj_get, get_obj, get_field, get_bool, get_u32, get_text};
use crate::api::{Position, position_of, decode_position, req_bool, field_bool};
use crate::error::NanoLeafError;

verus! {

/// Status of the optional rhythm add-on module. Only `rhythmConnected` is
/// required on the wire: every other field decodes to `None` when it is
/// absent (or null), because the module may not be attached at all.
#[derive(Debug, Clone)]
pub struct Rhythm {
    pub rhythm_connected: bool,
    pub rhythm_active: Option<bool>,
    pub rhythm_id: Option<u32>,
    pub hardware_version: Option<String>,
    pub firmware_version: Option<String>,
    pub aux_available: Option<bool>,
    pub rhythm_mode: Option<u32>,
    pub rhythm_pos: Option<Position>,
}

/// An optional boolean field: absent or null is `None`, a boolean is
/// `Some`, anything else is a decode failure.
pub open spec fn opt_bool(fs: Seq<(String, JsonVal)>, key: Seq<char>) -> Option<Option<bool>> {
    match obj_get(fs, key) {
        None => Some(None),
        Some(w) => match w {
            JsonVal::Null => Some(None),
            _ => match as_bool(w) {
                Some(b) => Some(Some(b)),
                None => None,
            },
        },
    }
}

/// An optional `u32` field, as `opt_bool` but for numbers in `u32` range.
pub open spec fn opt_u32(fs: Seq<(String, JsonVal)>, key: Seq<char>) -> Option<Option<u32>> {
    match obj_get(fs, key) {
        None => Some(None),
        Some(w) => match w {
            JsonVal::Null => Some(None),
            _ => match as_u32(w) {
                Some(n) => Some(Some(n)),
                None => None,
            },
        },
    }
}

/// An optional string field, as `opt_bool` but for strings.
pub open spec fn opt_text(fs: Seq<(String, JsonVal)>, key: Seq<char>) -> Option<Option<String>> {
    match obj_get(fs, key) {
        None => Some(None),
        Some(w) => match w {
            JsonVal::Null => Some(None),
            _ => match as_text(w) {
                Some(s) => Some(Some(s)),
                None => None,
            },
        },
    }
}

/// An optional `Position` field, as `opt_bool` but for position objects.
pub open spec fn opt_pos(fs: Seq<(String, JsonVal)>, key: Seq<char>) -> Option<Option<Position>> {
    match obj_get(fs, key) {
        None => Some(None),
        Some(w) => match w {
            JsonVal::Null => Some(None),
            _ => match position_of(w) {
                Some(p) => Some(Some(p)),
                None => None,
            },
        },
    }
}

/// Reads an optional boolean field, as `opt_bool` describes.
pub fn field_opt_bool(fields: &Vec<(String, JsonVal)>, key: &str) -> (r: Option<Option<bool>>)
    ensures
        r == opt_bool(fields@, key@),
{
    match get_field(fields, key) {
        None => Some(None),
        Some(w) => match w {
            JsonVal::Null => Some(None),
            _ => match get_bool(w) {
                Some(b) => Some(Some(b)),
                None => None,
            },
        },
    }
}

/// Reads an optional `u32` field, as `opt_u32` describes.
pub fn field_opt_u32(fields: &Vec<(String, JsonVal)>, key: &str) -> (r: Option<Option<u32>>)
    ensures
        r == opt_u32(fields@, key@),
{
    match get_field(fields, key) {
        None => Some(None),
        Some(w) => match w {
            JsonVal::Null => Some(None),
            _ => match get_u32(w) {
                Some(n) => Some(Some(n)),
                None => None,
            },
        },
    }
}

/// Reads an optional string field, as `opt_text` describes.
pub fn field_opt_text(fields: &Vec<(String, JsonVal)>, key: &str) -> (r: Result<
    Option<String>,
    NanoLeafError,
>)
    ensures
        match r {
            Ok(s) => opt_text(fields@, key@) == Some(s),
            Err(e) => opt_text(fields@, key@) is None && e == NanoLeafError::Decode,
        },
{
    match get_field(fields, key) {
        None => Ok(None),
        Some(w) => match w {
            JsonVal::Null => Ok(None),
            _ => match get_text(w) {
                Some(s) => Ok(Some(s.clone())),
                None => Err(NanoLeafError::Decode),
            },
        },
    }
}

/// Reads an optional `Position` field, as `opt_pos` describes.
pub fn field_opt_pos(fields: &Vec<(String, JsonVal)>, key: &str) -> (r: Result<
    Option<Position>,
    NanoLeafError,
>)
    ensures
        match r {
            Ok(p) => opt_pos(fields@, key@) == Some(p),
            Err(e) => opt_pos(fields@, key@) is None && e == NanoLeafError::Decode,
        },
{
    match get_field(fields, key) {
        None => Ok(None),
        Some(w) => match w {
            JsonVal::Null => Ok(None),
            _ => match decode_position(w) {
                Ok(p) => Ok(Some(p)),
                Err(e) => Err(e),
            },
        },
    }
}

/// The `Rhythm` that `v` decodes to: required `rhythmConnected`, every
/// other field optional as `opt_bool` and its kin describe.
pub open spec fn rhythm_of(v: JsonVal) -> Option<Rhythm> {
    match as_obj(v) {
        Some(fs) => match req_bool(fs, "rhythmConnected"@) {
            Some(rhythm_connected) => match (
                opt_bool(fs, "rhythmActive"@),
                opt_u32(fs, "rhythmId"@),
                opt_text(fs, "hardwareVersion"@),
                opt_text(fs, "firmwareVersion"@),
                opt_bool(fs, "auxAvailable"@),
                opt_u32(fs, "rhythmMode"@),
                opt_pos(fs, "rhythmPos"@),
            ) {
                (
                    Some(rhythm_active),
                    Some(rhythm_id),
                    Some(hardware_version),
                    Some(firmware_version),
                    Some(aux_available),
                    Some(rhythm_mode),
                    Some(rhythm_pos),
                ) => Some(
                    Rhythm {
                        rhythm_connected,
                        rhythm_active,
                        rhythm_id,
                        hardware_version,
                        firmware_version,
                        aux_available,
                        rhythm_mode,
                        rhythm_pos,
                    },
                ),
                _ => None,
            },
            None => None,
        },
        None => None,
    }
}

/// Decodes a `Rhythm`, exactly as `rhythm_of` states. A document holding
/// only `rhythmConnected` succeeds, with every optional field absent.
pub fn decode_rhythm(v: &JsonVal) -> (r: Result<Rhythm, NanoLeafError>)
    ensures
        match r {
            Ok(x) => rhythm_of(*v) == Some(x),
            Err(e) => rhythm_of(*v) is None && e == NanoLeafError::Decode,
        },
{
    let fields = match get_obj(v) {
        Some(f) => f,
        None => {
            return Err(NanoLeafError::Decode);
        },
    };
    let rhythm_connected = match field_bool(fields, "rhythmConnected") {
        Some(b) => b,
        None => {
            return Err(NanoLeafError::Decode);
        },
    };
    let rhythm_active = match field_opt_bool(fields, "rhythmActive") {
        Some(x) => x,
        None => {
            return Err(NanoLeafError::Decode);
        },
    };
    let rhythm_id = match field_opt_u32(fields, "rhythmId") {
        Some(x) => x,
        None => {
            return Err(NanoLeafError::Decode);
        },
    };
    let hardware_version = match field_opt_text(fields, "hardwareVersion") {
        Ok(x) => x,
        Err(e) => {
            return Err(e);
        },
    };
    let firmware_version = match field_opt_text(fields, "firmwareVersion") {
        Ok(x) => x,
        Err(e) => {
            return Err(e);
        },
    };
    let aux_available = match field_opt_bool(fields, "auxAvailable") {
        Some(x) => x,
        None => {
            return Err(NanoLeafError::Decode);
        },
    };
    let rhythm_mode = match field_opt_u32(fields, "rhythmMode") {
        Some(x) => x,
        None => {
            return Err(NanoLeafError::Decode);
        },
    };
    let rhythm_pos = match field_opt_pos(fields, "rhythmPos") {
        Ok(x) => x,
        Err(e) => {
            return Err(e);
        },
    };
    Ok(
        Rhythm {
            rhythm_connected,
            rhythm_active,
            rhythm_id,
            hardware_version,
            firmware_version,
            aux_available,
            rhythm_mode,
            rhythm_pos,
        },
    )
}

} // verus!
