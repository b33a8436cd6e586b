use vstd::prelude::*;
use crate::json::JsonVal;

verus! {

#[verifier::external_type_specification]
#[verifier::external_body]
pub struct ExValue(serde_json::Value);

/// Relies on serde_json's `Value` enum: each variant moves to the matching
/// [`JsonVal`] variant; a number that `Number::as_i64` cannot represent
/// (a float, or an integer above `i64::MAX`) becomes `JsonVal::Other`,
/// which no decoder of this crate accepts.
#[verifier::external_body]
fn raw_to_val(v: &serde_json::Value) -> JsonVal {
    match v {
        serde_json::Value::Null => JsonVal::Null,
        serde_json::Value::Bool(b) => JsonVal::Bool(*b),
        serde_json::Value::Number(n) => match n.as_i64() {
            Some(i) => JsonVal::Num(i),
            None => JsonVal::Other,
        },
        serde_json::Value::String(s) => JsonVal::Text(s.clone()),
        serde_json::Value::Array(a) => JsonVal::Arr(a.iter().map(raw_to_val).collect()),
        serde_json::Value::Object(m) => JsonVal::Obj(
            m.iter().map(|(k, w)| (k.clone(), raw_to_val(w))).collect(),
        ),
    }
}

// A name for what parsing a text yields: `None` on a text that is not a
// well-formed JSON document, and otherwise the parsed tree. The result
// depends on the characters alone, so the name is well defined; nothing
// else is assumed of it, and every decoder states what it returns for
// every possible tree.
pub uninterp spec fn json_of(text: Seq<char>) -> Option<JsonVal>;

/// Relies on serde_json::from_str: it returns `Ok` exactly on a well-formed
/// JSON document, and the same text always parses to the same tree, which
/// `json_of` names. The tree comes back through `raw_to_val`.
#[verifier::external_body]
pub(crate) fn parse_json(text: &str) -> (r: Option<JsonVal>)
    ensures
        r == json_of(text@),
{
    match serde_json::from_str::<serde_json::Value>(text) {
        Ok(v) => Some(raw_to_val(&v)),
        Err(_) => None,
    }
}

} // verus!
