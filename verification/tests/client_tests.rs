use nanoleaf::{HttpMethod, NanoLeafClient, info_response, select_get_response, text_response, unit_response};
use nanoleaf::color::NanoLeafColor;
use nanoleaf::error::NanoLeafError;

const INFO_DOC: &str = r#"{
    "name": "Light Panels Name",
    "serialNo": "S16331A0217",
    "manufacturer": "Nanoleaf",
    "firmwareVersion": "1.5.0",
    "model": "NL22",
    "state": {
        "on": { "value": false },
        "brightness": { "value": 100, "max": 100, "min": 0 },
        "hue": { "value": 0, "max": 360, "min": 0 },
        "sat": { "value": 0, "max": 100, "min": 0 },
        "ct": { "value": 4000, "max": 100, "min": 0 },
        "colorMode": "effect"
    },
    "effects": {
        "select": "Flames",
        "effectsList": [
            "Color Burst", "Flames", "Forest", "Inner Peace",
            "Nemo", "Northern Lights", "Romantic", "Snowfall"
        ]
    },
    "panelLayout": {
        "layout": {
            "numPanels": 2,
            "sideLength": 150,
            "positionData": [
                { "panelId": 107, "x": -74, "y": 43, "o": 180, "shapeType": 0 },
                { "panelId": 114, "x": -149, "y": 0, "o": 360, "shapeType": 0 }
            ]
        },
        "globalOrientation": { "value": 120, "max": 360, "min": 0 }
    },
    "rhythm": {
        "rhythmConnected": true,
        "rhythmActive": true,
        "rhythmId": 309,
        "hardwareVersion": "1.4",
        "firmwareVersion": "1.7-R",
        "auxAvailable": true,
        "rhythmMode": 1,
        "rhythmPos": { "x": 299, "y": -86, "o": 300 }
    }
}"#;

#[test]
fn get_info_test() {
    let result = info_response(200, INFO_DOC).expect("Something went wrong");
    assert_eq!(result.serial_no, "S16331A0217");
    assert_eq!(result.name, "Light Panels Name");
    assert_eq!(result.manufacturer, "Nanoleaf");
    assert_eq!(result.firmware_version, "1.5.0");
    assert_eq!(result.model, "NL22");
    assert_eq!(result.state.on.value, false);
    assert_eq!(result.state.brightness.value, 100);
    assert_eq!(result.state.hue.max, 360);
    assert_eq!(result.state.ct.value, 4000);
    assert_eq!(result.state.color_mode, "effect");
    assert_eq!(result.effects.select, "Flames");
    assert_eq!(result.effects.effects_list.len(), 8);
    assert_eq!(result.effects.effects_list[0], "Color Burst");
    assert_eq!(result.effects.effects_list[7], "Snowfall");
    assert_eq!(result.panel_layout.layout.num_panels, 2);
    assert_eq!(result.panel_layout.layout.side_length, 150);
    assert_eq!(result.panel_layout.layout.position_data.len(), 2);
    assert_eq!(result.panel_layout.layout.position_data[0].panel_id, 107);
    assert_eq!(result.panel_layout.layout.position_data[0].pos.x, -74);
    assert_eq!(result.panel_layout.layout.position_data[1].pos.x, -149);
    assert_eq!(result.panel_layout.layout.position_data[1].pos.o, 360);
    assert_eq!(result.panel_layout.global_orientation.value, 120);
    assert_eq!(result.rhythm.rhythm_connected, true);
    assert_eq!(result.rhythm.rhythm_id, Some(309));
    assert_eq!(result.rhythm.hardware_version.as_deref(), Some("1.4"));
    let pos = result.rhythm.rhythm_pos.expect("rhythm position");
    assert_eq!(pos.x, 299);
    assert_eq!(pos.y, -86);
    assert_eq!(pos.o, 300);
}

#[test]
fn put_on_test() {
    let client = NanoLeafClient::new("TOKEN", "http://device.local");
    let req = client.on_request(true);
    assert!(matches!(req.method, HttpMethod::Put));
    assert_eq!(req.url, "http://device.local/api/v1/TOKEN/state/on");
    assert_eq!(req.body.as_deref(), Some("{\"on\":{\"value\":true}}"));
    let result = text_response(200, "").expect("Something went wrong");
    assert_eq!(result, "");
}

#[test]
fn put_on_false_body() {
    let client = NanoLeafClient::new("TOKEN", "http://device.local");
    let req = client.on_request(false);
    assert_eq!(req.body.as_deref(), Some("{\"on\":{\"value\":false}}"));
}

#[test]
fn get_select_test() {
    let client = NanoLeafClient::new("TOKEN", "http://device.local");
    let req = client.select_get_request();
    assert!(matches!(req.method, HttpMethod::Get));
    assert_eq!(req.url, "http://device.local/api/v1/TOKEN/effects/select");
    assert!(req.body.is_none());
    let result = select_get_response(200, "\"Solid\"").expect("Something went wrong");
    assert_eq!(result, "Solid");
}

#[test]
fn put_select_body() {
    let client = NanoLeafClient::new("TOKEN", "http://device.local");
    let req = client.select_put_request("Flames");
    assert!(matches!(req.method, HttpMethod::Put));
    assert_eq!(req.url, "http://device.local/api/v1/TOKEN/effects");
    assert_eq!(req.body.as_deref(), Some("{\"select\":\"Flames\"}"));
}

#[test]
fn request_effect_body() {
    let client = NanoLeafClient::new("TOKEN", "http://device.local");
    let req = client.request_effect_request("Nemo");
    assert!(matches!(req.method, HttpMethod::Put));
    assert_eq!(req.url, "http://device.local/api/v1/TOKEN/effects");
    assert_eq!(
        req.body.as_deref(),
        Some("{\"write\":{\"command\":\"request\",\"animName\":\"Nemo\"}}")
    );
}

#[test]
fn put_wheel_effect() {
    let client = NanoLeafClient::new("TOKEN", "http://device.local");
    let palette = vec![
        NanoLeafColor::new(0, 100, 100),
        NanoLeafColor::new(120, 100, 100),
        NanoLeafColor::new(240, 100, 100),
    ];
    let req = client.add_wheel_effect_request("My Animation", palette);
    assert!(matches!(req.method, HttpMethod::Put));
    assert_eq!(req.url, "http://device.local/api/v1/TOKEN/effects");
    let expected = r#"{"write":{"command":"add","version":"2.0","animType":"plugin","animName":"My Animation","colorType":"HSB","pluginUuid":"027842e4-e1d6-4a4c-a731-be74a1ebd4cf","pluginType":"color","pluginOptions":[{"name":"transTime","value":24},{"name":"delayTime","value":0},{"name":"linDirection","value":"right"},{"name":"loop","value":true}],"palette":[{"hue":0,"saturation":100,"brightness":100},{"hue":120,"saturation":100,"brightness":100},{"hue":240,"saturation":100,"brightness":100}],"hasOverlay":false}}"#;
    assert_eq!(req.body.as_deref(), Some(expected));
}

#[test]
fn wheel_effect_body_is_valid_json() {
    let client = NanoLeafClient::new("TOKEN", "http://device.local");
    let palette = vec![NanoLeafColor::new(37, 5, 99)];
    let req = client.add_wheel_effect_request("It's \"odd\"\n", palette);
    let body = req.body.expect("body");
    let v: serde_json::Value = serde_json::from_str(&body).expect("valid JSON");
    assert_eq!(v["write"]["animName"], serde_json::Value::from("It's \"odd\"\n"));
    assert_eq!(v["write"]["palette"][0]["hue"], serde_json::Value::from(37u32));
    assert_eq!(v["write"]["pluginOptions"][2]["value"], serde_json::Value::from("right"));
    assert_eq!(v["write"]["hasOverlay"], serde_json::Value::from(false));
}

#[test]
fn escaped_select_body() {
    let client = NanoLeafClient::new("TOKEN", "http://device.local");
    let req = client.select_put_request("a\"b\\c\u{7}");
    assert_eq!(req.body.as_deref(), Some("{\"select\":\"a\\\"b\\\\c\\u0007\"}"));
}

#[test]
fn info_request_targets_root() {
    let client = NanoLeafClient::new("TOKEN", "http://device.local");
    let req = client.info_request();
    assert!(matches!(req.method, HttpMethod::Get));
    assert_eq!(req.url, "http://device.local/api/v1/TOKEN/");
    assert!(req.body.is_none());
}

#[test]
fn api_builds_endpoint_urls() {
    let client = NanoLeafClient::new("SECRET-REDACTED", "http://10.0.0.2:16021");
    assert_eq!(
        client.api("state/on"),
        "http://10.0.0.2:16021/api/v1/SECRET-REDACTED/state/on"
    );
}

#[test]
fn device_error_on_info() {
    let r = info_response(500, INFO_DOC);
    assert!(matches!(r, Err(NanoLeafError::Device(500))));
}

#[test]
fn device_error_on_select_get() {
    let r = select_get_response(401, "\"Solid\"");
    assert!(matches!(r, Err(NanoLeafError::Device(401))));
}

#[test]
fn device_error_on_text() {
    let r = text_response(404, "gone");
    assert!(matches!(r, Err(NanoLeafError::Device(404))));
}

#[test]
fn device_error_on_unit() {
    let r = unit_response(503);
    assert!(matches!(r, Err(NanoLeafError::Device(503))));
    assert!(unit_response(204).is_ok());
}

#[test]
fn malformed_info_body_is_decode_error() {
    let r = info_response(200, "{ not json at all");
    assert!(matches!(r, Err(NanoLeafError::Decode)));
}

#[test]
fn missing_serial_no_is_decode_error() {
    let doc = INFO_DOC.replace("\"serialNo\": \"S16331A0217\",", "");
    let r = info_response(200, &doc);
    assert!(matches!(r, Err(NanoLeafError::Decode)));
}

#[test]
fn select_get_non_string_is_decode_error() {
    let r = select_get_response(200, "{\"select\":\"Solid\"}");
    assert!(matches!(r, Err(NanoLeafError::Decode)));
}
