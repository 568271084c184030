use std::collections::HashSet;

use govee_client::capability::CapabilityState;
use govee_client::client::{
    accept, change_capability_value, change_capability_value_request, checked_api_key,
    control_request, device_request, get_device_state, get_device_state_request, get_devices,
    get_devices_request, get_diy_scenes, get_diy_scenes_request, get_light_scenes,
    get_light_scenes_request, list_scenes, list_scenes_request,
};
use govee_client::device::{DeviceState, GoveeDevice};
use govee_client::error::{ApiError, Operation, SceneKind};
use govee_client::scene::{SceneOption, SceneValue};
use govee_client::value::Value;
use govee_client::wire::{
    Body, CapabilityControl, ControlPayload, DevicePayload, Exchange, HttpRequest, Method,
    RequestEnvelope,
};

fn tree(json: serde_json::Value) -> Value {
    match json {
        serde_json::Value::Null => Value::Null,
        serde_json::Value::Bool(b) => Value::Boolean(b),
        serde_json::Value::Number(n) => match (n.as_i64(), n.as_f64()) {
            (Some(i), _) => Value::Integer(i),
            (None, Some(f)) => Value::Float(f.to_bits()),
            (None, None) => Value::Null,
        },
        serde_json::Value::String(s) => Value::Text(s),
        serde_json::Value::Array(items) => Value::Array(items.into_iter().map(tree).collect()),
        serde_json::Value::Object(fields) => Value::Object(
            fields
                .into_iter()
                .map(|(name, value)| (name, tree(value)))
                .collect(),
        ),
    }
}

/// An answer with the given status, whose body is the given text.
fn answered(status: u16, text: &str) -> Exchange {
    Exchange::Answered {
        status,
        text: text.to_string(),
        json: serde_json::from_str::<serde_json::Value>(text)
            .map(tree)
            .map_err(|e| e.to_string()),
    }
}

fn key() -> Option<String> {
    Some("0123-secret".to_string())
}

fn lamp(device_type: &str) -> GoveeDevice {
    GoveeDevice {
        sku: "H6159".to_string(),
        device: "AB:CD".to_string(),
        device_type: device_type.to_string(),
        device_name: None,
        capabilities: Vec::new(),
    }
}

fn thermometer(value: Value) -> DeviceState {
    DeviceState {
        capabilities: vec![CapabilityState {
            capability_type: "devices.capabilities.property".to_string(),
            instance: "sensorTemperature".to_string(),
            value,
        }],
        device: "AB:CD".to_string(),
        sku: "H5179".to_string(),
    }
}

fn state_answer(code: i32, msg: &str, value: &str) -> String {
    format!(
        "{{\"requestId\":\"echoed\",\"code\":{},\"msg\":\"{}\",\"payload\":{{\"sku\":\"H5179\",\"device\":\"AB:CD\",\"capabilities\":[{{\"type\":\"devices.capabilities.property\",\"instance\":\"sensorTemperature\",\"state\":{{\"value\":{}}}}}]}}}}",
        code, msg, value
    )
}

fn scenes_answer(code: i32, msg: &str, instance: &str) -> String {
    format!(
        "{{\"requestId\":\"echoed\",\"code\":{},\"msg\":\"{}\",\"payload\":{{\"sku\":\"H6159\",\"device\":\"AB:CD\",\"capabilities\":[{{\"type\":\"devices.capabilities.dynamic_scene\",\"instance\":\"{}\",\"parameters\":{{\"dataType\":\"ENUM\",\"options\":[{{\"name\":\"Sunrise\",\"value\":{{\"paramId\":4280,\"id\":3853}}}},{{\"name\":\"Movie\",\"value\":12}}]}}}}]}}}}",
        code, msg, instance
    )
}

fn two_scenes() -> Vec<SceneOption> {
    vec![
        SceneOption {
            name: "Sunrise".to_string(),
            value: SceneValue::Keyed {
                param_id: 4280,
                id: 3853,
            },
        },
        SceneOption {
            name: "Movie".to_string(),
            value: SceneValue::Simple(12),
        },
    ]
}

fn request_id(request: &HttpRequest) -> String {
    match &request.body {
        Body::Empty => String::new(),
        Body::Device(envelope) => envelope.request_id.clone(),
        Body::Control(envelope) => envelope.request_id.clone(),
    }
}

fn has_the_shape_of_a_request_id(id: &str) -> bool {
    let chars: Vec<char> = id.chars().collect();
    chars.len() == 36
        && chars.iter().enumerate().all(|(i, c)| {
            if i == 8 || i == 13 || i == 18 || i == 23 {
                *c == '-'
            } else {
                c.is_ascii_digit() || ('a'..='f').contains(c)
            }
        })
        && chars[14] == '4'
        && ['8', '9', 'a', 'b'].contains(&chars[19])
}

#[test]
fn list_devices_scenario() {
    let text = "{\"code\":200,\"message\":\"ok\",\"data\":[{\"sku\":\"H6159\",\"device\":\"AB:CD\",\"type\":\"devices.types.light\",\"capabilities\":[]}]}";
    let devices = get_devices(answered(200, text)).unwrap();
    assert_eq!(devices.len(), 1);
    assert_eq!(devices[0].device_type, "light");
    assert_eq!(devices, vec![lamp("light")]);
}

#[test]
fn device_state_scenario() {
    let state = get_device_state(answered(200, &state_answer(200, "success", "98.6"))).unwrap();
    assert_eq!(state, thermometer(Value::Integer(37)));
}

#[test]
fn whole_number_temperature_of_a_state_is_converted() {
    let state = get_device_state(answered(200, &state_answer(200, "success", "50")));
    assert_eq!(state, Ok(thermometer(Value::Integer(10))));
}

#[test]
fn temperature_that_is_no_number_comes_through() {
    let state = get_device_state(answered(200, &state_answer(200, "success", "\"warm\"")));
    assert_eq!(state, Ok(thermometer(Value::Text("warm".to_string()))));
    let state = get_device_state(answered(200, &state_answer(200, "success", "null")));
    assert_eq!(state, Ok(thermometer(Value::Null)));
}

#[test]
fn list_devices_request_is_a_get_with_the_key() {
    assert_eq!(
        get_devices_request(key()),
        Ok(HttpRequest {
            method: Method::Get,
            url: "https://openapi.api.govee.com/router/api/v1/user/devices".to_string(),
            api_key: "0123-secret".to_string(),
            body: Body::Empty,
        })
    );
}

#[test]
fn no_call_without_a_key() {
    assert_eq!(get_devices_request(None), Err(ApiError::MissingApiKey));
    assert_eq!(
        get_devices_request(Some(String::new())),
        Err(ApiError::MissingApiKey)
    );
    assert_eq!(
        get_device_state_request(None, "d".to_string(), "s".to_string()),
        Err(ApiError::MissingApiKey)
    );
    assert_eq!(
        change_capability_value_request(
            None,
            "d".to_string(),
            "s".to_string(),
            "t".to_string(),
            "i".to_string(),
            Value::Integer(1)
        ),
        Err(ApiError::MissingApiKey)
    );
    assert_eq!(
        get_light_scenes_request(None, "d".to_string(), "s".to_string()),
        Err(ApiError::MissingApiKey)
    );
    assert_eq!(
        get_diy_scenes_request(Some(String::new()), "d".to_string(), "s".to_string()),
        Err(ApiError::MissingApiKey)
    );
}

#[test]
fn key_that_cannot_stand_in_a_header_is_malformed() {
    assert_eq!(
        checked_api_key(Some("line\nbreak".to_string())),
        Err(ApiError::InvalidApiKeyFormat)
    );
    assert_eq!(
        checked_api_key(Some("nul\0".to_string())),
        Err(ApiError::InvalidApiKeyFormat)
    );
    assert_eq!(
        checked_api_key(Some("del\u{7f}".to_string())),
        Err(ApiError::InvalidApiKeyFormat)
    );
    assert_eq!(
        checked_api_key(Some("\r".to_string())),
        Err(ApiError::InvalidApiKeyFormat)
    );
    assert_eq!(
        checked_api_key(Some("\u{1f}".to_string())),
        Err(ApiError::InvalidApiKeyFormat)
    );
    assert_eq!(
        get_devices_request(Some("line\nbreak".to_string())),
        Err(ApiError::InvalidApiKeyFormat)
    );
}

#[test]
fn key_of_printable_characters_is_usable() {
    assert_eq!(
        checked_api_key(Some("abc-DEF_123".to_string())),
        Ok("abc-DEF_123".to_string())
    );
    assert_eq!(
        checked_api_key(Some("with space".to_string())),
        Ok("with space".to_string())
    );
    assert_eq!(
        checked_api_key(Some("tab\there".to_string())),
        Ok("tab\there".to_string())
    );
    assert_eq!(checked_api_key(Some(" ".to_string())), Ok(" ".to_string()));
    assert_eq!(checked_api_key(Some("~".to_string())), Ok("~".to_string()));
    assert_eq!(
        checked_api_key(Some("ключ".to_string())),
        Ok("ключ".to_string())
    );
    assert_eq!(
        checked_api_key(Some("\u{80}".to_string())),
        Ok("\u{80}".to_string())
    );
}

#[test]
fn state_request_posts_the_device_under_a_fresh_identifier() {
    let request =
        get_device_state_request(key(), "AB:CD".to_string(), "H5179".to_string()).unwrap();
    let id = request_id(&request);
    assert!(has_the_shape_of_a_request_id(&id), "{}", id);
    assert_eq!(
        request,
        HttpRequest {
            method: Method::Post,
            url: "https://openapi.api.govee.com/router/api/v1/device/state".to_string(),
            api_key: "0123-secret".to_string(),
            body: Body::Device(RequestEnvelope {
                request_id: id,
                payload: DevicePayload {
                    device: "AB:CD".to_string(),
                    sku: "H5179".to_string()
                },
            }),
        }
    );
}

#[test]
fn device_request_goes_to_the_endpoint_of_its_operation() {
    let cases = [
        (
            Operation::GetState,
            "https://openapi.api.govee.com/router/api/v1/device/state",
        ),
        (
            Operation::ListScenes(SceneKind::Light),
            "https://openapi.api.govee.com/router/api/v1/device/scenes",
        ),
        (
            Operation::ListScenes(SceneKind::Diy),
            "https://openapi.api.govee.com/router/api/v1/device/diy-scenes",
        ),
    ];
    for (operation, url) in cases {
        let request = device_request(
            operation,
            key(),
            "d".to_string(),
            "s".to_string(),
            "id-1".to_string(),
        )
        .unwrap();
        assert_eq!(
            request,
            HttpRequest {
                method: Method::Post,
                url: url.to_string(),
                api_key: "0123-secret".to_string(),
                body: Body::Device(RequestEnvelope {
                    request_id: "id-1".to_string(),
                    payload: DevicePayload {
                        device: "d".to_string(),
                        sku: "s".to_string()
                    },
                }),
            }
        );
    }
}

#[test]
fn scene_requests_go_to_their_endpoints() {
    let light = get_light_scenes_request(key(), "d".to_string(), "s".to_string()).unwrap();
    assert_eq!(
        light.url,
        "https://openapi.api.govee.com/router/api/v1/device/scenes"
    );
    assert_eq!(light.method, Method::Post);
    assert!(has_the_shape_of_a_request_id(&request_id(&light)));
    let diy = get_diy_scenes_request(key(), "d".to_string(), "s".to_string()).unwrap();
    assert_eq!(
        diy.url,
        "https://openapi.api.govee.com/router/api/v1/device/diy-scenes"
    );
    assert!(has_the_shape_of_a_request_id(&request_id(&diy)));
    let by_kind =
        list_scenes_request(SceneKind::Diy, key(), "d".to_string(), "s".to_string()).unwrap();
    assert_eq!(by_kind.url, diy.url);
}

#[test]
fn control_request_carries_the_value_as_it_was_given() {
    let scene = || {
        Value::Object(vec![
            ("paramId".to_string(), Value::Integer(4280)),
            ("id".to_string(), Value::Integer(3853)),
        ])
    };
    let request = control_request(
        key(),
        "AB:CD".to_string(),
        "H6159".to_string(),
        "devices.capabilities.dynamic_scene".to_string(),
        "lightScene".to_string(),
        scene(),
        "id-7".to_string(),
    )
    .unwrap();
    assert_eq!(
        request,
        HttpRequest {
            method: Method::Post,
            url: "https://openapi.api.govee.com/router/api/v1/device/control".to_string(),
            api_key: "0123-secret".to_string(),
            body: Body::Control(RequestEnvelope {
                request_id: "id-7".to_string(),
                payload: ControlPayload {
                    device: "AB:CD".to_string(),
                    sku: "H6159".to_string(),
                    capability: CapabilityControl {
                        capability_type: "devices.capabilities.dynamic_scene".to_string(),
                        instance: "lightScene".to_string(),
                        value: scene(),
                    },
                },
            }),
        }
    );
    let fresh = change_capability_value_request(
        key(),
        "AB:CD".to_string(),
        "H6159".to_string(),
        "devices.capabilities.on_off".to_string(),
        "powerSwitch".to_string(),
        Value::Integer(1),
    )
    .unwrap();
    assert!(has_the_shape_of_a_request_id(&request_id(&fresh)));
    assert_eq!(
        fresh.url,
        "https://openapi.api.govee.com/router/api/v1/device/control"
    );
}

#[test]
fn ten_thousand_request_identifiers_are_distinct() {
    let mut seen = HashSet::new();
    for _ in 0..10_000 {
        let request = get_device_state_request(key(), "d".to_string(), "s".to_string()).unwrap();
        let id = request_id(&request);
        assert!(has_the_shape_of_a_request_id(&id), "{}", id);
        assert!(seen.insert(id));
    }
    assert_eq!(seen.len(), 10_000);
}

#[test]
fn remote_error_despite_a_successful_status() {
    assert_eq!(
        get_devices(answered(
            200,
            "{\"code\":401,\"message\":\"bad key\",\"data\":[]}"
        )),
        Err(ApiError::RemoteError {
            code: 401,
            message: "bad key".to_string()
        })
    );
    assert_eq!(
        get_device_state(answered(204, &state_answer(500, "down", "70"))),
        Err(ApiError::RemoteError {
            code: 500,
            message: "down".to_string()
        })
    );
    assert_eq!(
        get_light_scenes(answered(200, &scenes_answer(0, "", "lightScene"))),
        Err(ApiError::RemoteError {
            code: 0,
            message: String::new()
        })
    );
    assert_eq!(
        get_diy_scenes(answered(299, &scenes_answer(-1, "no", "diyScene"))),
        Err(ApiError::RemoteError {
            code: -1,
            message: "no".to_string()
        })
    );
}

#[test]
fn status_that_is_no_success_is_a_rejection() {
    let body = "{\"code\":200,\"message\":\"ok\",\"data\":[]}";
    for status in [
        100u16, 199, 300, 301, 400, 401, 404, 429, 500, 503, 599, 600, 0, 65535,
    ] {
        assert_eq!(
            change_capability_value(answered(status, "rate limited")),
            Err(ApiError::ApiRejected {
                status,
                body: "rate limited".to_string()
            })
        );
        assert_eq!(
            get_devices(answered(status, body)),
            Err(ApiError::ApiRejected {
                status,
                body: body.to_string()
            })
        );
        assert_eq!(
            get_device_state(answered(status, &state_answer(200, "ok", "70"))),
            Err(ApiError::ApiRejected {
                status,
                body: state_answer(200, "ok", "70")
            })
        );
        assert_eq!(
            get_light_scenes(answered(status, "")),
            Err(ApiError::ApiRejected {
                status,
                body: String::new()
            })
        );
    }
}

#[test]
fn every_status_from_400_to_599_rejects_a_control_command() {
    for status in 400u16..=599 {
        assert_eq!(
            change_capability_value(answered(status, "no")),
            Err(ApiError::ApiRejected {
                status,
                body: "no".to_string()
            })
        );
    }
}

#[test]
fn control_command_succeeds_on_any_successful_status() {
    for status in 200u16..300 {
        assert_eq!(
            change_capability_value(answered(status, "{\"code\":500}")),
            Ok(())
        );
        assert_eq!(
            change_capability_value(answered(status, "no JSON at all")),
            Ok(())
        );
    }
}

#[test]
fn failed_transport_is_a_network_failure_of_the_operation() {
    assert_eq!(
        get_devices(Exchange::Failed {
            reason: "dns".to_string()
        }),
        Err(ApiError::NetworkFailure {
            operation: Operation::ListDevices,
            reason: "dns".to_string()
        })
    );
    assert_eq!(
        get_device_state(Exchange::Failed {
            reason: "reset".to_string()
        }),
        Err(ApiError::NetworkFailure {
            operation: Operation::GetState,
            reason: "reset".to_string()
        })
    );
    assert_eq!(
        change_capability_value(Exchange::Failed {
            reason: "tls".to_string()
        }),
        Err(ApiError::NetworkFailure {
            operation: Operation::SendControl,
            reason: "tls".to_string()
        })
    );
    assert_eq!(
        get_light_scenes(Exchange::Failed {
            reason: "x".to_string()
        }),
        Err(ApiError::NetworkFailure {
            operation: Operation::ListScenes(SceneKind::Light),
            reason: "x".to_string()
        })
    );
    assert_eq!(
        get_diy_scenes(Exchange::Failed {
            reason: "y".to_string()
        }),
        Err(ApiError::NetworkFailure {
            operation: Operation::ListScenes(SceneKind::Diy),
            reason: "y".to_string()
        })
    );
}

#[test]
fn call_given_up_is_cancelled() {
    assert_eq!(get_devices(Exchange::Cancelled), Err(ApiError::Cancelled));
    assert_eq!(
        get_device_state(Exchange::Cancelled),
        Err(ApiError::Cancelled)
    );
    assert_eq!(
        change_capability_value(Exchange::Cancelled),
        Err(ApiError::Cancelled)
    );
    assert_eq!(
        list_scenes(SceneKind::Light, Exchange::Cancelled),
        Err(ApiError::Cancelled)
    );
}

#[test]
fn body_that_is_no_json_is_a_decode_failure() {
    let exchange = Exchange::Answered {
        status: 200,
        text: "<html>".to_string(),
        json: Err("expected value at line 1 column 1".to_string()),
    };
    assert_eq!(
        get_devices(exchange),
        Err(ApiError::DecodeFailure {
            reason: "expected value at line 1 column 1".to_string()
        })
    );
    let rejected = Exchange::Answered {
        status: 502,
        text: "<html>".to_string(),
        json: Err("expected value at line 1 column 1".to_string()),
    };
    assert_eq!(
        accept(Operation::ListDevices, rejected),
        Err(ApiError::ApiRejected {
            status: 502,
            body: "<html>".to_string()
        })
    );
    assert!(matches!(
        get_device_state(answered(200, "{\"requestId\":")),
        Err(ApiError::DecodeFailure { .. })
    ));
}

#[test]
fn body_that_does_not_match_the_schema_is_a_decode_failure() {
    assert_eq!(
        get_devices(answered(200, "{\"code\":200,\"message\":\"ok\"}")),
        Err(ApiError::DecodeFailure {
            reason: "missing field `data`".to_string()
        })
    );
    assert_eq!(
        get_devices(answered(200, "[]")),
        Err(ApiError::DecodeFailure {
            reason: "invalid type for `response`".to_string()
        })
    );
    assert_eq!(
        get_device_state(answered(
            200,
            "{\"requestId\":\"r\",\"code\":200,\"msg\":\"ok\"}"
        )),
        Err(ApiError::DecodeFailure {
            reason: "missing field `payload`".to_string()
        })
    );
    assert_eq!(
        get_light_scenes(answered(
            200,
            "{\"requestId\":\"r\",\"code\":\"200\",\"msg\":\"ok\",\"payload\":{}}"
        )),
        Err(ApiError::DecodeFailure {
            reason: "invalid type for `code`".to_string()
        })
    );
    assert_eq!(
        get_devices(answered(200, "{\"code\":401,\"message\":\"bad key\"}")),
        Err(ApiError::DecodeFailure {
            reason: "missing field `data`".to_string()
        })
    );
}

#[test]
fn light_scenes_are_the_options_of_the_light_scene_capability() {
    assert_eq!(
        get_light_scenes(answered(200, &scenes_answer(200, "ok", "lightScene"))),
        Ok(two_scenes())
    );
    assert_eq!(
        get_light_scenes(answered(200, &scenes_answer(200, "ok", "diyScene"))),
        Err(ApiError::NotFound {
            kind: SceneKind::Light
        })
    );
    assert_eq!(
        get_light_scenes(answered(200, &scenes_answer(200, "ok", "LightScene"))),
        Err(ApiError::NotFound {
            kind: SceneKind::Light
        })
    );
}

#[test]
fn diy_scenes_are_the_options_of_the_diy_scene_capability() {
    assert_eq!(
        get_diy_scenes(answered(200, &scenes_answer(200, "ok", "diyScene"))),
        Ok(two_scenes())
    );
    assert_eq!(
        get_diy_scenes(answered(200, &scenes_answer(200, "ok", "lightScene"))),
        Err(ApiError::NotFound {
            kind: SceneKind::Diy
        })
    );
    assert_eq!(
        list_scenes(
            SceneKind::Diy,
            answered(200, &scenes_answer(200, "ok", "diyScene"))
        ),
        Ok(two_scenes())
    );
    assert_eq!(
        get_diy_scenes(answered(
            200,
            "{\"requestId\":\"r\",\"code\":200,\"msg\":\"ok\",\"payload\":{\"sku\":\"s\",\"device\":\"d\",\"capabilities\":[]}}"
        )),
        Err(ApiError::NotFound { kind: SceneKind::Diy })
    );
}
