use vstd::prelude::*;

verus! {

/// A parsed JSON document, as plain values the decoders can reason about.
/// Numbers are kept as `i64`: the device's wire format uses integers only.
/// A number with no `i64` counterpart parses to `Other`, which no decoder
/// accepts.
pub enum JsonVal {
    Null,
    Bool(bool),
    Num(i64),
    Text(String),
    Arr(Vec<JsonVal>),
    Obj(Vec<(String, JsonVal)>),
    Other,
}

/// The boolean held by `v`, if it is one.
pub open spec fn as_bool(v: JsonVal) -> Option<bool> {
    match v {
        JsonVal::Bool(b) => Some(b),
        _ => None,
    }
}

/// The number held by `v` as a `u32`, if it is a number in `u32` range.
pub open spec fn as_u32(v: JsonVal) -> Option<u32> {
    match v {
        JsonVal::Num(n) => if 0 <= n && n <= u32::MAX {
            Some(n as u32)
        } else {
            None
        },
        _ => None,
    }
}

/// The number held by `v` as an `i32`, if it is a number in `i32` range.
pub open spec fn as_i32(v: JsonVal) -> Option<i32> {
    match v {
        JsonVal::Num(n) => if i32::MIN <= n && n <= i32::MAX {
            Some(n as i32)
        } else {
            None
        },
        _ => None,
    }
}

/// The string held by `v`, if it is one.
pub open spec fn as_text(v: JsonVal) -> Option<String> {
    match v {
        JsonVal::Text(s) => Some(s),
        _ => None,
    }
}

/// The elements of `v`, if it is an array.
pub open spec fn as_arr(v: JsonVal) -> Option<Seq<JsonVal>> {
    match v {
        JsonVal::Arr(items) => Some(items@),
        _ => None,
    }
}

/// The fields of `v`, if it is an object.
pub open spec fn as_obj(v: JsonVal) -> Option<Seq<(String, JsonVal)>> {
    match v {
        JsonVal::Obj(fields) => Some(fields@),
        _ => None,
    }
}

/// The value of the first field named `key` at or after index `i`.
pub open spec fn obj_get_from(fields: Seq<(String, JsonVal)>, key: Seq<char>, i: int) -> Option<
    JsonVal,
>
    decreases fields.len() - i,
{
    if i < 0 || i >= fields.len() {
        None
    } else if fields[i].0@ == key {
        Some(fields[i].1)
    } else {
        obj_get_from(fields, key, i + 1)
    }
}

/// The value of the first field named `key`, if any.
pub open spec fn obj_get(fields: Seq<(String, JsonVal)>, key: Seq<char>) -> Option<JsonVal> {
    obj_get_from(fields, key, 0)
}

/// Looks a field up by name, as `obj_get` describes.
pub fn get_field<'a>(fields: &'a Vec<(String, JsonVal)>, key: &str) -> (r: Option<&'a JsonVal>)
    ensures
        match r {
            Some(v) => obj_get(fields@, key@) == Some(*v),
            None => obj_get(fields@, key@) is None,
        },
{
    let k: String = key.to_owned();
    let mut i: usize = 0;
    while i < fields.len()
        invariant
            i <= fields@.len(),
            k@ == key@,
            obj_get(fields@, key@) == obj_get_from(fields@, key@, i as int),
        decreases fields@.len() - i,
    {
        if fields[i].0 == k {
            return Some(&fields[i].1);
        }
        i = i + 1;
    }
    None
}

/// Reads a boolean, as `as_bool` describes.
pub fn get_bool(v: &JsonVal) -> (r: Option<bool>)
    ensures
        r == as_bool(*v),
{
    match v {
        JsonVal::Bool(b) => Some(*b),
        _ => None,
    }
}

/// Reads a `u32`, as `as_u32` describes.
pub fn get_u32(v: &JsonVal) -> (r: Option<u32>)
    ensures
        r == as_u32(*v),
{
    match v {
        JsonVal::Num(n) => if 0 <= *n && *n <= u32::MAX as i64 {
            Some(*n as u32)
        } else {
            None
        },
        _ => None,
    }
}

/// Reads an `i32`, as `as_i32` describes.
pub fn get_i32(v: &JsonVal) -> (r: Option<i32>)
    ensures
        r == as_i32(*v),
{
    match v {
        JsonVal::Num(n) => if i32::MIN as i64 <= *n && *n <= i32::MAX as i64 {
            Some(*n as i32)
        } else {
            None
        },
        _ => None,
    }
}

/// Borrows the string, as `as_text` describes.
pub fn get_text<'a>(v: &'a JsonVal) -> (r: Option<&'a String>)
    ensures
        match r {
            Some(s) => as_text(*v) == Some(*s),
            None => as_text(*v) is None,
        },
{
    match v {
        JsonVal::Text(s) => Some(s),
        _ => None,
    }
}

/// Borrows the elements, as `as_arr` describes.
pub fn get_arr<'a>(v: &'a JsonVal) -> (r: Option<&'a Vec<JsonVal>>)
    ensures
        match r {
            Some(items) => as_arr(*v) == Some(items@),
            None => as_arr(*v) is None,
        },
{
    match v {
        JsonVal::Arr(items) => Some(items),
        _ => None,
    }
}

/// Borrows the fields, as `as_obj` describes.
pub fn get_obj<'a>(v: &'a JsonVal) -> (r: Option<&'a Vec<(String, JsonVal)>>)
    ensures
        match r {
            Some(fields) => as_obj(*v) == Some(fields@),
            None => as_obj(*v) is None,
        },
{
    match v {
        JsonVal::Obj(fields) => Some(fields),
        _ => None,
    }
}

} // verus!
