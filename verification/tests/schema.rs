use govee_client::capability::{CapabilityState, GoveeCapability};
use govee_client::device::{DeviceState, GoveeDevice};
use govee_client::encode::{
    encode_body, encode_device_state, encode_devices, encode_scene_options,
};
use govee_client::scene::{SceneOption, SceneValue};
use govee_client::schema::{
    decode_capability, decode_device, decode_device_list, decode_scene_option,
    decode_scene_response, decode_scene_value, decode_state, decode_state_response,
};
use govee_client::value::{clone_value, field, Value};
use govee_client::wire::{
    Body, CapabilityControl, ControlPayload, DevicePayload, GoveeResponse, RequestEnvelope,
};

fn tree(json: serde_json::Value) -> Value {
    match json {
        serde_json::Value::Null => Value::Null,
        serde_json::Value::Bool(b) => Value::Boolean(b),
        serde_json::Value::Number(n) => match (n.as_i64(), n.as_f64()) {
            (Some(i), _) => Value::Integer(i),
            (None, Some(f)) => Value::Float(f.to_bits()),
            (None, None) => Value::Null,
        },
        serde_json::Value::String(s) => Value::Text(s),
        serde_json::Value::Array(items) => Value::Array(items.into_iter().map(tree).collect()),
        serde_json::Value::Object(fields) => Value::Object(
            fields
                .into_iter()
                .map(|(name, value)| (name, tree(value)))
                .collect(),
        ),
    }
}

fn plain(value: &Value) -> serde_json::Value {
    match value {
        Value::Null => serde_json::Value::Null,
        Value::Boolean(b) => serde_json::Value::Bool(*b),
        Value::Integer(i) => serde_json::Value::from(*i),
        Value::Float(bits) => serde_json::Value::from(f64::from_bits(*bits)),
        Value::Text(s) => serde_json::Value::String(s.clone()),
        Value::Array(items) => serde_json::Value::Array(items.iter().map(plain).collect()),
        Value::Object(fields) => serde_json::Value::Object(
            fields
                .iter()
                .map(|(name, value)| (name.clone(), plain(value)))
                .collect(),
        ),
    }
}

fn json(text: &str) -> Value {
    tree(serde_json::from_str(text).unwrap())
}

fn parsed(text: &str) -> serde_json::Value {
    serde_json::from_str(text).unwrap()
}

fn switch(parameters: Option<Value>) -> GoveeCapability {
    GoveeCapability {
        capability_type: "devices.capabilities.on_off".to_string(),
        instance: "powerSwitch".to_string(),
        parameters,
    }
}

#[test]
fn device_is_read_by_the_vendors_field_names() {
    let text = "{\"sku\":\"H6159\",\"device\":\"AB:CD\",\"type\":\"devices.types.light\",\"deviceName\":\"Desk\",\"capabilities\":[{\"type\":\"devices.capabilities.on_off\",\"instance\":\"powerSwitch\",\"parameters\":{\"dataType\":\"ENUM\"}}]}";
    assert_eq!(
        decode_device(&json(text)),
        Ok(GoveeDevice {
            sku: "H6159".to_string(),
            device: "AB:CD".to_string(),
            device_type: "devices.types.light".to_string(),
            device_name: Some("Desk".to_string()),
            capabilities: vec![switch(Some(Value::Object(vec![(
                "dataType".to_string(),
                Value::Text("ENUM".to_string())
            )])))],
        })
    );
}

#[test]
fn missing_and_null_optional_fields_are_absent() {
    let missing = "{\"sku\":\"s\",\"device\":\"d\",\"type\":\"t\",\"capabilities\":[{\"type\":\"k\",\"instance\":\"i\"}]}";
    let null = "{\"sku\":\"s\",\"device\":\"d\",\"type\":\"t\",\"deviceName\":null,\"capabilities\":[{\"type\":\"k\",\"instance\":\"i\",\"parameters\":null}]}";
    let expected = || GoveeDevice {
        sku: "s".to_string(),
        device: "d".to_string(),
        device_type: "t".to_string(),
        device_name: None,
        capabilities: vec![GoveeCapability {
            capability_type: "k".to_string(),
            instance: "i".to_string(),
            parameters: None,
        }],
    };
    assert_eq!(decode_device(&json(missing)), Ok(expected()));
    assert_eq!(decode_device(&json(null)), Ok(expected()));
}

#[test]
fn fields_that_the_schema_does_not_name_are_ignored() {
    let text = "{\"aaa\":1,\"code\":200,\"extra\":{\"code\":500},\"message\":\"ok\",\"data\":[{\"sku\":\"s\",\"zzz\":[1,2],\"device\":\"d\",\"type\":\"t\",\"capabilities\":[],\"online\":true}],\"trace\":null}";
    assert_eq!(
        decode_device_list(&json(text)),
        Ok(GoveeResponse {
            code: 200,
            message: "ok".to_string(),
            data: vec![GoveeDevice {
                sku: "s".to_string(),
                device: "d".to_string(),
                device_type: "t".to_string(),
                device_name: None,
                capabilities: Vec::new(),
            }],
        })
    );
}

#[test]
fn field_names_are_matched_to_the_letter() {
    assert_eq!(
        decode_capability(&json("{\"Type\":\"k\",\"instance\":\"i\"}")),
        Err("missing field `type`".to_string())
    );
    assert_eq!(
        decode_device(&json(
            "{\"sku\":\"s\",\"device\":\"d\",\"type\":\"t\",\"devicename\":7,\"capabilities\":[]}"
        )),
        Ok(GoveeDevice {
            sku: "s".to_string(),
            device: "d".to_string(),
            device_type: "t".to_string(),
            device_name: None,
            capabilities: Vec::new(),
        })
    );
    assert_eq!(
        decode_state_response(&json(
            "{\"requestid\":\"r\",\"code\":200,\"msg\":\"\",\"payload\":{}}"
        )),
        Err("missing field `requestId`".to_string())
    );
    assert_eq!(
        decode_scene_response(&json(
            "{\"requestId\":\"r\",\"code\":200,\"msg\":\"\",\"payload\":{\"sku\":\"s\",\"device\":\"d\",\"capabilities\":[{\"type\":\"k\",\"instance\":\"i\",\"parameters\":{\"datatype\":\"ENUM\",\"options\":[]}}]}}"
        )),
        Err("missing field `dataType`".to_string())
    );
}

#[test]
fn the_first_fault_is_the_one_reported() {
    assert_eq!(
        decode_device_list(&json("7")),
        Err("invalid type for `response`".to_string())
    );
    assert_eq!(
        decode_device_list(&json("{}")),
        Err("missing field `code`".to_string())
    );
    assert_eq!(
        decode_device_list(&json("{\"code\":200.5,\"message\":1}")),
        Err("invalid type for `code`".to_string())
    );
    assert_eq!(
        decode_device_list(&json("{\"code\":4294967296,\"message\":\"\",\"data\":[]}")),
        Err("invalid type for `code`".to_string())
    );
    assert_eq!(
        decode_device_list(&json("{\"code\":200,\"message\":1}")),
        Err("invalid type for `message`".to_string())
    );
    assert_eq!(
        decode_device_list(&json("{\"code\":200,\"message\":\"\",\"data\":{}}")),
        Err("invalid type for `data`".to_string())
    );
    assert_eq!(
        decode_device_list(&json("{\"code\":200,\"message\":\"\",\"data\":[7]}")),
        Err("invalid type for `data`".to_string())
    );
    assert_eq!(
        decode_device_list(&json(
            "{\"code\":200,\"message\":\"\",\"data\":[{\"sku\":\"s\",\"device\":\"d\",\"type\":\"t\",\"capabilities\":[]},{\"sku\":\"s\"},{}]}"
        )),
        Err("missing field `device`".to_string())
    );
    assert_eq!(
        decode_device(&json(
            "{\"sku\":\"s\",\"device\":\"d\",\"type\":\"t\",\"deviceName\":7,\"capabilities\":[]}"
        )),
        Err("invalid type for `deviceName`".to_string())
    );
    assert_eq!(
        decode_device(&json(
            "{\"sku\":\"s\",\"device\":\"d\",\"type\":\"t\",\"capabilities\":[{\"type\":\"k\"}]}"
        )),
        Err("missing field `instance`".to_string())
    );
}

#[test]
fn limits_of_the_status_code_are_those_of_thirty_two_bits() {
    let answer = |code: &str| format!("{{\"code\":{},\"message\":\"\",\"data\":[]}}", code);
    assert_eq!(
        decode_device_list(&json(&answer("2147483647"))).map(|r| r.code),
        Ok(2147483647)
    );
    assert_eq!(
        decode_device_list(&json(&answer("-2147483648"))).map(|r| r.code),
        Ok(-2147483648)
    );
    assert_eq!(
        decode_device_list(&json(&answer("2147483648"))),
        Err("invalid type for `code`".to_string())
    );
    assert_eq!(
        decode_device_list(&json(&answer("-2147483649"))),
        Err("invalid type for `code`".to_string())
    );
}

#[test]
fn state_value_may_be_anything_but_must_be_there() {
    let state = |value: &str| {
        format!(
            "{{\"type\":\"k\",\"instance\":\"i\",\"state\":{{\"value\":{}}}}}",
            value
        )
    };
    let expected = |value: Value| CapabilityState {
        capability_type: "k".to_string(),
        instance: "i".to_string(),
        value,
    };
    assert_eq!(
        decode_state(&json(&state("1"))),
        Ok(expected(Value::Integer(1)))
    );
    assert_eq!(
        decode_state(&json(&state("true"))),
        Ok(expected(Value::Boolean(true)))
    );
    assert_eq!(
        decode_state(&json(&state("null"))),
        Ok(expected(Value::Null))
    );
    assert_eq!(
        decode_state(&json(&state("\"on\""))),
        Ok(expected(Value::Text("on".to_string())))
    );
    assert_eq!(
        decode_state(&json(&state("98.6"))),
        Ok(expected(Value::Float(98.6f64.to_bits())))
    );
    assert_eq!(
        decode_state(&json(&state("{\"r\":[1,{\"g\":null}]}"))),
        Ok(expected(json("{\"r\":[1,{\"g\":null}]}")))
    );
    assert_eq!(
        decode_state(&json("{\"type\":\"k\",\"instance\":\"i\",\"state\":{}}")),
        Err("missing field `value`".to_string())
    );
    assert_eq!(
        decode_state(&json("{\"type\":\"k\",\"instance\":\"i\",\"state\":7}")),
        Err("invalid type for `state`".to_string())
    );
    assert_eq!(
        decode_state(&json("{\"type\":\"k\",\"instance\":\"i\"}")),
        Err("missing field `state`".to_string())
    );
}

#[test]
fn scene_value_keeps_the_shape_in_which_it_came() {
    assert_eq!(decode_scene_value(&json("12")), Ok(SceneValue::Simple(12)));
    assert_eq!(decode_scene_value(&json("-1")), Ok(SceneValue::Simple(-1)));
    assert_eq!(
        decode_scene_value(&json("{\"paramId\":4280,\"id\":3853}")),
        Ok(SceneValue::Keyed {
            param_id: 4280,
            id: 3853
        })
    );
    assert_eq!(
        decode_scene_value(&json("{\"id\":1,\"paramId\":2,\"more\":3}")),
        Ok(SceneValue::Keyed { param_id: 2, id: 1 })
    );
    assert_eq!(
        decode_scene_value(&json("{\"id\":1}")),
        Err("missing field `paramId`".to_string())
    );
    assert_eq!(
        decode_scene_value(&json("{\"paramId\":1}")),
        Err("missing field `id`".to_string())
    );
    assert_eq!(
        decode_scene_value(&json("{\"paramId\":\"1\",\"id\":1}")),
        Err("invalid type for `paramId`".to_string())
    );
    assert_eq!(
        decode_scene_value(&json("\"12\"")),
        Err("invalid type for `value`".to_string())
    );
    assert_eq!(
        decode_scene_value(&json("1.5")),
        Err("invalid type for `value`".to_string())
    );
    assert_eq!(
        decode_scene_value(&json("null")),
        Err("invalid type for `value`".to_string())
    );
    assert_eq!(
        decode_scene_option(&json("{\"name\":\"Movie\"}")),
        Err("missing field `value`".to_string())
    );
}

#[test]
fn first_of_two_fields_of_a_name_is_the_one_read() {
    let fields = vec![
        ("a".to_string(), Value::Integer(1)),
        ("b".to_string(), Value::Integer(2)),
        ("a".to_string(), Value::Integer(3)),
    ];
    assert_eq!(field(&fields, "a"), Some(&Value::Integer(1)));
    assert_eq!(field(&fields, "b"), Some(&Value::Integer(2)));
    assert_eq!(field(&fields, "c"), None);
    assert_eq!(field(&fields, "A"), None);
    assert_eq!(field(&Vec::new(), "a"), None);
}

#[test]
fn copy_of_a_value_is_equal_to_any_depth() {
    let value = json("{\"a\":[1,2.5,\"x\",null,true,{\"b\":{\"c\":[[],{}]}}],\"d\":\"\"}");
    assert_eq!(clone_value(&value), value);
    assert_eq!(clone_value(&Value::Null), Value::Null);
}

#[test]
fn device_body_goes_out_under_the_vendors_field_names() {
    let body = Body::Device(RequestEnvelope {
        request_id: "id-1".to_string(),
        payload: DevicePayload {
            device: "AB:CD".to_string(),
            sku: "H5179".to_string(),
        },
    });
    let encoded = encode_body(&body).unwrap();
    assert_eq!(
        plain(&encoded),
        parsed("{\"requestId\":\"id-1\",\"payload\":{\"device\":\"AB:CD\",\"sku\":\"H5179\"}}")
    );
    assert_eq!(
        encoded,
        Value::Object(vec![
            ("requestId".to_string(), Value::Text("id-1".to_string())),
            (
                "payload".to_string(),
                Value::Object(vec![
                    ("device".to_string(), Value::Text("AB:CD".to_string())),
                    ("sku".to_string(), Value::Text("H5179".to_string())),
                ])
            ),
        ])
    );
}

#[test]
fn control_body_goes_out_under_the_vendors_field_names() {
    let body = Body::Control(RequestEnvelope {
        request_id: "id-2".to_string(),
        payload: ControlPayload {
            device: "AB:CD".to_string(),
            sku: "H6159".to_string(),
            capability: CapabilityControl {
                capability_type: "devices.capabilities.dynamic_scene".to_string(),
                instance: "lightScene".to_string(),
                value: json("{\"paramId\":4280,\"id\":3853}"),
            },
        },
    });
    assert_eq!(
        plain(&encode_body(&body).unwrap()),
        parsed(
            "{\"requestId\":\"id-2\",\"payload\":{\"device\":\"AB:CD\",\"sku\":\"H6159\",\"capability\":{\"type\":\"devices.capabilities.dynamic_scene\",\"instance\":\"lightScene\",\"value\":{\"paramId\":4280,\"id\":3853}}}}"
        )
    );
}

#[test]
fn plain_get_has_no_body() {
    assert_eq!(encode_body(&Body::Empty), None);
}

#[test]
fn devices_go_to_the_caller_under_the_vendors_field_names() {
    let devices = vec![GoveeDevice {
        sku: "H6159".to_string(),
        device: "AB:CD".to_string(),
        device_type: "light".to_string(),
        device_name: None,
        capabilities: vec![switch(None), switch(Some(Value::Integer(1)))],
    }];
    assert_eq!(
        plain(&encode_devices(&devices)),
        parsed(
            "[{\"sku\":\"H6159\",\"device\":\"AB:CD\",\"type\":\"light\",\"deviceName\":null,\"capabilities\":[{\"type\":\"devices.capabilities.on_off\",\"instance\":\"powerSwitch\",\"parameters\":null},{\"type\":\"devices.capabilities.on_off\",\"instance\":\"powerSwitch\",\"parameters\":1}]}]"
        )
    );
}

#[test]
fn what_is_written_reads_back() {
    let devices = vec![
        GoveeDevice {
            sku: "H6159".to_string(),
            device: "AB:CD".to_string(),
            device_type: "light".to_string(),
            device_name: Some("Desk".to_string()),
            capabilities: vec![switch(None), switch(Some(json("{\"dataType\":\"ENUM\"}")))],
        },
        GoveeDevice {
            sku: "H5179".to_string(),
            device: "EF:01".to_string(),
            device_type: "thermometer".to_string(),
            device_name: None,
            capabilities: Vec::new(),
        },
    ];
    let encoded = encode_devices(&devices);
    let Value::Array(items) = &encoded else {
        panic!("no array")
    };
    assert_eq!(items.len(), 2);
    assert_eq!(decode_device(&items[0]).as_ref(), Ok(&devices[0]));
    assert_eq!(decode_device(&items[1]).as_ref(), Ok(&devices[1]));

    let state = DeviceState {
        capabilities: vec![
            CapabilityState {
                capability_type: "k".to_string(),
                instance: "sensorTemperature".to_string(),
                value: Value::Integer(37),
            },
            CapabilityState {
                capability_type: "k".to_string(),
                instance: "online".to_string(),
                value: Value::Null,
            },
        ],
        device: "EF:01".to_string(),
        sku: "H5179".to_string(),
    };
    assert_eq!(
        plain(&encode_device_state(&state)),
        parsed(
            "{\"capabilities\":[{\"type\":\"k\",\"instance\":\"sensorTemperature\",\"state\":{\"value\":37}},{\"type\":\"k\",\"instance\":\"online\",\"state\":{\"value\":null}}],\"device\":\"EF:01\",\"sku\":\"H5179\"}"
        )
    );

    let options = vec![
        SceneOption {
            name: "Sunrise".to_string(),
            value: SceneValue::Keyed { param_id: 1, id: 2 },
        },
        SceneOption {
            name: "Movie".to_string(),
            value: SceneValue::Simple(12),
        },
    ];
    let encoded = encode_scene_options(&options);
    assert_eq!(
        plain(&encoded),
        parsed("[{\"name\":\"Sunrise\",\"value\":{\"paramId\":1,\"id\":2}},{\"name\":\"Movie\",\"value\":12}]")
    );
    let Value::Array(items) = &encoded else {
        panic!("no array")
    };
    assert_eq!(decode_scene_option(&items[0]).as_ref(), Ok(&options[0]));
    assert_eq!(decode_scene_option(&items[1]).as_ref(), Ok(&options[1]));
}
