use nanoleaf::api::{BoundedValue, decode_bounded_value, decode_position, encode_bounded_value};
use nanoleaf::api::effects::decode_effects;
use nanoleaf::api::rhythm::decode_rhythm;
use nanoleaf::api::state::{On, decode_on, decode_state, encode_on};
use nanoleaf::error::NanoLeafError;
use nanoleaf::json::JsonVal;

fn obj(fields: Vec<(&str, JsonVal)>) -> JsonVal {
    JsonVal::Obj(fields.into_iter().map(|(k, v)| (k.to_string(), v)).collect())
}

#[test]
fn rhythm_connected_only_decodes_with_all_absent() {
    let v = obj(vec![("rhythmConnected", JsonVal::Bool(false))]);
    let r = decode_rhythm(&v).expect("absent module still decodes");
    assert_eq!(r.rhythm_connected, false);
    assert!(r.rhythm_active.is_none());
    assert!(r.rhythm_id.is_none());
    assert!(r.hardware_version.is_none());
    assert!(r.firmware_version.is_none());
    assert!(r.aux_available.is_none());
    assert!(r.rhythm_mode.is_none());
    assert!(r.rhythm_pos.is_none());
}

#[test]
fn rhythm_null_fields_decode_as_absent() {
    let v = obj(vec![
        ("rhythmConnected", JsonVal::Bool(true)),
        ("rhythmActive", JsonVal::Null),
        ("rhythmId", JsonVal::Null),
    ]);
    let r = decode_rhythm(&v).expect("nulls are absence");
    assert!(r.rhythm_active.is_none());
    assert!(r.rhythm_id.is_none());
}

#[test]
fn rhythm_missing_connected_is_decode_error() {
    let v = obj(vec![("rhythmActive", JsonVal::Bool(true))]);
    assert!(matches!(decode_rhythm(&v), Err(NanoLeafError::Decode)));
}

#[test]
fn rhythm_wrong_type_is_decode_error() {
    let v = obj(vec![
        ("rhythmConnected", JsonVal::Bool(true)),
        ("rhythmId", JsonVal::Text("309".to_string())),
    ]);
    assert!(matches!(decode_rhythm(&v), Err(NanoLeafError::Decode)));
}

#[test]
fn bounded_value_round_trips() {
    let b = BoundedValue { value: 77, max: 100, min: 0 };
    let decoded = decode_bounded_value(&encode_bounded_value(&b)).expect("round trip");
    assert_eq!(decoded, b);
}

#[test]
fn on_round_trips() {
    for value in [false, true] {
        let o = On { value };
        let decoded = decode_on(&encode_on(&o)).expect("round trip");
        assert_eq!(decoded, o);
    }
}

#[test]
fn bounded_value_out_of_range_is_decode_error() {
    let v = obj(vec![
        ("value", JsonVal::Num(5000000000)),
        ("max", JsonVal::Num(100)),
        ("min", JsonVal::Num(0)),
    ]);
    assert!(matches!(decode_bounded_value(&v), Err(NanoLeafError::Decode)));
    let w = obj(vec![
        ("value", JsonVal::Num(-1)),
        ("max", JsonVal::Num(100)),
        ("min", JsonVal::Num(0)),
    ]);
    assert!(matches!(decode_bounded_value(&w), Err(NanoLeafError::Decode)));
}

#[test]
fn bounded_value_surfaces_out_of_bounds_readings() {
    let v = obj(vec![
        ("value", JsonVal::Num(4000)),
        ("max", JsonVal::Num(100)),
        ("min", JsonVal::Num(0)),
    ]);
    let b = decode_bounded_value(&v).expect("no client-side range check");
    assert_eq!(b, BoundedValue { value: 4000, max: 100, min: 0 });
}

#[test]
fn position_decodes_negative_coordinates() {
    let v = obj(vec![
        ("x", JsonVal::Num(-74)),
        ("y", JsonVal::Num(43)),
        ("o", JsonVal::Num(180)),
    ]);
    let p = decode_position(&v).expect("position");
    assert_eq!(p.x, -74);
    assert_eq!(p.y, 43);
    assert_eq!(p.o, 180);
}

#[test]
fn effects_list_keeps_wire_order() {
    let v = obj(vec![
        ("select", JsonVal::Text("Flames".to_string())),
        (
            "effectsList",
            JsonVal::Arr(vec![
                JsonVal::Text("Color Burst".to_string()),
                JsonVal::Text("Flames".to_string()),
                JsonVal::Text("Forest".to_string()),
            ]),
        ),
    ]);
    let e = decode_effects(&v).expect("effects");
    assert_eq!(e.select, "Flames");
    assert_eq!(e.effects_list, vec!["Color Burst", "Flames", "Forest"]);
}

#[test]
fn effects_non_string_entry_is_decode_error() {
    let v = obj(vec![
        ("select", JsonVal::Text("Flames".to_string())),
        ("effectsList", JsonVal::Arr(vec![JsonVal::Num(3)])),
    ]);
    assert!(matches!(decode_effects(&v), Err(NanoLeafError::Decode)));
}

#[test]
fn state_ignores_unknown_fields() {
    let bv = |n: i64| {
        obj(vec![
            ("value", JsonVal::Num(n)),
            ("max", JsonVal::Num(100)),
            ("min", JsonVal::Num(0)),
        ])
    };
    let v = obj(vec![
        ("on", obj(vec![("value", JsonVal::Bool(true))])),
        ("brightness", bv(50)),
        ("hue", bv(10)),
        ("sat", bv(20)),
        ("ct", bv(30)),
        ("colorMode", JsonVal::Text("hs".to_string())),
        ("someFutureField", JsonVal::Num(9)),
    ]);
    let s = decode_state(&v).expect("unknown fields are ignored");
    assert_eq!(s.on.value, true);
    assert_eq!(s.brightness.value, 50);
    assert_eq!(s.color_mode, "hs");
}

#[test]
fn state_missing_color_mode_is_decode_error() {
    let bv = |n: i64| {
        obj(vec![
            ("value", JsonVal::Num(n)),
            ("max", JsonVal::Num(100)),
            ("min", JsonVal::Num(0)),
        ])
    };
    let v = obj(vec![
        ("on", obj(vec![("value", JsonVal::Bool(true))])),
        ("brightness", bv(50)),
        ("hue", bv(10)),
        ("sat", bv(20)),
        ("ct", bv(30)),
    ]);
    assert!(matches!(decode_state(&v), Err(NanoLeafError::Decode)));
}
