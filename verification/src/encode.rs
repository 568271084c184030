//! The wire schema, outbound: the JSON form of what is posted with a call,
//! and of what an operation hands to its caller.

use vstd::prelude::*;
use vstd::string::StringExecFns;

use crate::capability::{CapabilityModel, CapabilityState, GoveeCapability, StateModel};
use crate::device::{DeviceModel, DeviceState, DeviceStateModel, GoveeDevice};
use crate::model::models;
use crate::scene::{SceneOption, SceneOptionModel, SceneValue};
use crate::value::{clone_value, field_models, lemma_view_of_structured, Value, ValueModel};
use crate::wire::{Body, BodyModel};

verus! {

/// An object of the given fields, in order.
fn object(fields: Vec<(String, Value)>) -> (json: Value)
    ensures
        json@ == ValueModel::Object(field_models(fields@)),
{
    proof {
        lemma_view_of_structured(Value::Object(fields));
    }
    Value::Object(fields)
}

/// An array of the given items, in order.
fn array(items: Vec<Value>) -> (json: Value)
    ensures
        json@ == ValueModel::Array(models(items@)),
{
    proof {
        lemma_view_of_structured(Value::Array(items));
    }
    Value::Array(items)
}

/// A text value.
fn text(s: &String) -> (json: Value)
    ensures
        json@ == ValueModel::Text(s@),
{
    Value::Text(s.clone())
}

/// A field of an object.
fn named(name: &str, value: Value) -> (entry: (String, Value))
    ensures
        entry.0@ == name@,
        entry.1 == value,
{
    (String::from_str(name), value)
}

/// The JSON form of what is posted with a call; nothing for a plain GET.
pub open spec fn body_json(body: BodyModel) -> Option<ValueModel> {
    match body {
        BodyModel::Empty => None,
        BodyModel::Device { request_id, device, sku } => Some(
            ValueModel::Object(
                seq![
                    ("requestId"@, ValueModel::Text(request_id)),
                    (
                        "payload"@,
                        ValueModel::Object(
                            seq![
                                ("device"@, ValueModel::Text(device)),
                                ("sku"@, ValueModel::Text(sku)),
                            ],
                        ),
                    ),
                ],
            ),
        ),
        BodyModel::Control { request_id, device, sku, kind, instance, value } => Some(
            ValueModel::Object(
                seq![
                    ("requestId"@, ValueModel::Text(request_id)),
                    (
                        "payload"@,
                        ValueModel::Object(
                            seq![
                                ("device"@, ValueModel::Text(device)),
                                ("sku"@, ValueModel::Text(sku)),
                                (
                                    "capability"@,
                                    ValueModel::Object(
                                        seq![
                                            ("type"@, ValueModel::Text(kind)),
                                            ("instance"@, ValueModel::Text(instance)),
                                            ("value"@, value),
                                        ],
                                    ),
                                ),
                            ],
                        ),
                    ),
                ],
            ),
        ),
    }
}

/// Gives the JSON form of what is posted with a call.
pub fn encode_body(body: &Body) -> (json: Option<Value>)
    ensures
        crate::model::optional_model(json) == body_json(body@),
{
    match body {
        Body::Empty => None,
        Body::Device(envelope) => {
            let mut payload: Vec<(String, Value)> = Vec::new();
            payload.push(named("device", text(&envelope.payload.device)));
            payload.push(named("sku", text(&envelope.payload.sku)));
            let ghost payload_fields = field_models(payload@);
            let mut fields: Vec<(String, Value)> = Vec::new();
            fields.push(named("requestId", text(&envelope.request_id)));
            fields.push(named("payload", object(payload)));
            let json = object(fields);
            assert(payload_fields =~= seq![
                ("device"@, ValueModel::Text(envelope.payload.device@)),
                ("sku"@, ValueModel::Text(envelope.payload.sku@)),
            ]);
            assert(field_models(fields@) =~= seq![
                ("requestId"@, ValueModel::Text(envelope.request_id@)),
                ("payload"@, ValueModel::Object(payload_fields)),
            ]);
            Some(json)
        },
        Body::Control(envelope) => {
            let mut capability: Vec<(String, Value)> = Vec::new();
            capability.push(named("type", text(&envelope.payload.capability.capability_type)));
            capability.push(named("instance", text(&envelope.payload.capability.instance)));
            capability.push(named("value", clone_value(&envelope.payload.capability.value)));
            let ghost capability_fields = field_models(capability@);
            let mut payload: Vec<(String, Value)> = Vec::new();
            payload.push(named("device", text(&envelope.payload.device)));
            payload.push(named("sku", text(&envelope.payload.sku)));
            payload.push(named("capability", object(capability)));
            let ghost payload_fields = field_models(payload@);
            let mut fields: Vec<(String, Value)> = Vec::new();
            fields.push(named("requestId", text(&envelope.request_id)));
            fields.push(named("payload", object(payload)));
            let json = object(fields);
            assert(capability_fields =~= seq![
                ("type"@, ValueModel::Text(envelope.payload.capability.capability_type@)),
                ("instance"@, ValueModel::Text(envelope.payload.capability.instance@)),
                ("value"@, envelope.payload.capability.value@),
            ]);
            assert(payload_fields =~= seq![
                ("device"@, ValueModel::Text(envelope.payload.device@)),
                ("sku"@, ValueModel::Text(envelope.payload.sku@)),
                ("capability"@, ValueModel::Object(capability_fields)),
            ]);
            assert(field_models(fields@) =~= seq![
                ("requestId"@, ValueModel::Text(envelope.request_id@)),
                ("payload"@, ValueModel::Object(payload_fields)),
            ]);
            Some(json)
        },
    }
}

/// The JSON form of a value that may be absent: null where it is.
pub open spec fn optional_json(value: Option<ValueModel>) -> ValueModel {
    match value {
        Some(v) => v,
        None => ValueModel::Null,
    }
}

/// The JSON form of a text that may be absent: null where it is.
pub open spec fn optional_text_json(text: Option<Seq<char>>) -> ValueModel {
    match text {
        Some(t) => ValueModel::Text(t),
        None => ValueModel::Null,
    }
}

/// The JSON form of a declared capability.
pub open spec fn capability_json(capability: CapabilityModel) -> ValueModel {
    ValueModel::Object(
        seq![
            ("type"@, ValueModel::Text(capability.kind)),
            ("instance"@, ValueModel::Text(capability.instance)),
            ("parameters"@, optional_json(capability.parameters)),
        ],
    )
}

/// Gives the JSON form of a declared capability.
pub fn encode_capability(capability: &GoveeCapability) -> (json: Value)
    ensures
        json@ == capability_json(capability@),
{
    let parameters = match &capability.parameters {
        Some(value) => clone_value(value),
        None => Value::Null,
    };
    let mut fields: Vec<(String, Value)> = Vec::new();
    fields.push(named("type", text(&capability.capability_type)));
    fields.push(named("instance", text(&capability.instance)));
    fields.push(named("parameters", parameters));
    assert(field_models(fields@) =~= seq![
        ("type"@, ValueModel::Text(capability.capability_type@)),
        ("instance"@, ValueModel::Text(capability.instance@)),
        ("parameters"@, optional_json(capability@.parameters)),
    ]);
    object(fields)
}

/// The JSON forms of the declared capabilities of a device, in order.
pub open spec fn capabilities_json(list: Seq<CapabilityModel>) -> Seq<ValueModel> {
    Seq::new(list.len(), |i: int| capability_json(list[i]))
}

/// Gives the JSON forms of the items of a list, in order.
fn encode_capabilities(list: &Vec<GoveeCapability>) -> (items: Vec<Value>)
    ensures
        models(items@) == capabilities_json(models(list@)),
{
    let mut items: Vec<Value> = Vec::new();
    let mut i: usize = 0;
    while i < list.len()
        invariant
            i <= list.len(),
            items@.len() == i,
            forall|j: int| 0 <= j < i ==> (#[trigger] items@[j])@ == capability_json(list@[j]@),
        decreases list.len() - i,
    {
        items.push(encode_capability(&list[i]));
        i = i + 1;
    }
    assert(models(items@) =~= capabilities_json(models(list@)));
    items
}

/// The JSON form of a device.
pub open spec fn device_json(device: DeviceModel) -> ValueModel {
    ValueModel::Object(
        seq![
            ("sku"@, ValueModel::Text(device.sku)),
            ("device"@, ValueModel::Text(device.device)),
            ("type"@, ValueModel::Text(device.device_type)),
            ("deviceName"@, optional_text_json(device.device_name)),
            ("capabilities"@, ValueModel::Array(capabilities_json(device.capabilities))),
        ],
    )
}

/// Gives the JSON form of a device.
pub fn encode_device(device: &GoveeDevice) -> (json: Value)
    ensures
        json@ == device_json(device@),
{
    let name = match &device.device_name {
        Some(n) => text(n),
        None => Value::Null,
    };
    let mut fields: Vec<(String, Value)> = Vec::new();
    fields.push(named("sku", text(&device.sku)));
    fields.push(named("device", text(&device.device)));
    fields.push(named("type", text(&device.device_type)));
    fields.push(named("deviceName", name));
    fields.push(named("capabilities", array(encode_capabilities(&device.capabilities))));
    assert(field_models(fields@) =~= seq![
        ("sku"@, ValueModel::Text(device.sku@)),
        ("device"@, ValueModel::Text(device.device@)),
        ("type"@, ValueModel::Text(device.device_type@)),
        ("deviceName"@, optional_text_json(device@.device_name)),
        ("capabilities"@, ValueModel::Array(capabilities_json(device@.capabilities))),
    ]);
    object(fields)
}

/// The JSON forms of the devices of a list, in order.
pub open spec fn devices_json(list: Seq<DeviceModel>) -> Seq<ValueModel> {
    Seq::new(list.len(), |i: int| device_json(list[i]))
}

/// Gives the JSON forms of the items of a list, in order.
fn encode_device_items(list: &Vec<GoveeDevice>) -> (items: Vec<Value>)
    ensures
        models(items@) == devices_json(models(list@)),
{
    let mut items: Vec<Value> = Vec::new();
    let mut i: usize = 0;
    while i < list.len()
        invariant
            i <= list.len(),
            items@.len() == i,
            forall|j: int| 0 <= j < i ==> (#[trigger] items@[j])@ == device_json(list@[j]@),
        decreases list.len() - i,
    {
        items.push(encode_device(&list[i]));
        i = i + 1;
    }
    assert(models(items@) =~= devices_json(models(list@)));
    items
}

/// Gives the JSON form of a list of devices: an array of their forms.
pub fn encode_devices(devices: &Vec<GoveeDevice>) -> (json: Value)
    ensures
        json@ == ValueModel::Array(devices_json(models(devices@))),
{
    array(encode_device_items(devices))
}

/// The JSON form of the live value of a capability.
pub open spec fn state_json(state: StateModel) -> ValueModel {
    ValueModel::Object(
        seq![
            ("type"@, ValueModel::Text(state.kind)),
            ("instance"@, ValueModel::Text(state.instance)),
            ("state"@, ValueModel::Object(seq![("value"@, state.value)])),
        ],
    )
}

/// Gives the JSON form of the live value of a capability.
pub fn encode_state(state: &CapabilityState) -> (json: Value)
    ensures
        json@ == state_json(state@),
{
    let mut inner: Vec<(String, Value)> = Vec::new();
    inner.push(named("value", clone_value(&state.value)));
    let ghost inner_fields = field_models(inner@);
    let mut fields: Vec<(String, Value)> = Vec::new();
    fields.push(named("type", text(&state.capability_type)));
    fields.push(named("instance", text(&state.instance)));
    fields.push(named("state", object(inner)));
    assert(inner_fields =~= seq![("value"@, state.value@)]);
    assert(field_models(fields@) =~= seq![
        ("type"@, ValueModel::Text(state.capability_type@)),
        ("instance"@, ValueModel::Text(state.instance@)),
        ("state"@, ValueModel::Object(inner_fields)),
    ]);
    object(fields)
}

/// The JSON forms of the live values of a device's capabilities, in order.
pub open spec fn states_json(list: Seq<StateModel>) -> Seq<ValueModel> {
    Seq::new(list.len(), |i: int| state_json(list[i]))
}

/// Gives the JSON forms of the items of a list, in order.
fn encode_states(list: &Vec<CapabilityState>) -> (items: Vec<Value>)
    ensures
        models(items@) == states_json(models(list@)),
{
    let mut items: Vec<Value> = Vec::new();
    let mut i: usize = 0;
    while i < list.len()
        invariant
            i <= list.len(),
            items@.len() == i,
            forall|j: int| 0 <= j < i ==> (#[trigger] items@[j])@ == state_json(list@[j]@),
        decreases list.len() - i,
    {
        items.push(encode_state(&list[i]));
        i = i + 1;
    }
    assert(models(items@) =~= states_json(models(list@)));
    items
}

/// The JSON form of the state of a device.
pub open spec fn device_state_json(state: DeviceStateModel) -> ValueModel {
    ValueModel::Object(
        seq![
            ("capabilities"@, ValueModel::Array(states_json(state.capabilities))),
            ("device"@, ValueModel::Text(state.device)),
            ("sku"@, ValueModel::Text(state.sku)),
        ],
    )
}

/// Gives the JSON form of the state of a device.
pub fn encode_device_state(state: &DeviceState) -> (json: Value)
    ensures
        json@ == device_state_json(state@),
{
    let mut fields: Vec<(String, Value)> = Vec::new();
    fields.push(named("capabilities", array(encode_states(&state.capabilities))));
    fields.push(named("device", text(&state.device)));
    fields.push(named("sku", text(&state.sku)));
    assert(field_models(fields@) =~= seq![
        ("capabilities"@, ValueModel::Array(states_json(state@.capabilities))),
        ("device"@, ValueModel::Text(state.device@)),
        ("sku"@, ValueModel::Text(state.sku@)),
    ]);
    object(fields)
}

/// The JSON form of the identifier of a scene: the shape in which it came.
pub open spec fn scene_value_json(value: SceneValue) -> ValueModel {
    match value {
        SceneValue::Simple(n) => ValueModel::Integer(n),
        SceneValue::Keyed { param_id, id } => ValueModel::Object(
            seq![("paramId"@, ValueModel::Integer(param_id)), ("id"@, ValueModel::Integer(id))],
        ),
    }
}

/// Gives the JSON form of the identifier of a scene.
pub fn encode_scene_value(value: SceneValue) -> (json: Value)
    ensures
        json@ == scene_value_json(value),
{
    match value {
        SceneValue::Simple(n) => Value::Integer(n),
        SceneValue::Keyed { param_id, id } => {
            let mut fields: Vec<(String, Value)> = Vec::new();
            fields.push(named("paramId", Value::Integer(param_id)));
            fields.push(named("id", Value::Integer(id)));
            assert(field_models(fields@) =~= seq![
                ("paramId"@, ValueModel::Integer(param_id)),
                ("id"@, ValueModel::Integer(id)),
            ]);
            object(fields)
        },
    }
}

/// The JSON form of a scene option.
pub open spec fn scene_option_json(option: SceneOptionModel) -> ValueModel {
    ValueModel::Object(
        seq![
            ("name"@, ValueModel::Text(option.name)),
            ("value"@, scene_value_json(option.value)),
        ],
    )
}

/// Gives the JSON form of a scene option.
pub fn encode_scene_option(option: &SceneOption) -> (json: Value)
    ensures
        json@ == scene_option_json(option@),
{
    let mut fields: Vec<(String, Value)> = Vec::new();
    fields.push(named("name", text(&option.name)));
    fields.push(named("value", encode_scene_value(option.value)));
    assert(field_models(fields@) =~= seq![
        ("name"@, ValueModel::Text(option.name@)),
        ("value"@, scene_value_json(option.value)),
    ]);
    object(fields)
}

/// The JSON forms of the options of a list, in order.
pub open spec fn scene_options_json(list: Seq<SceneOptionModel>) -> Seq<ValueModel> {
    Seq::new(list.len(), |i: int| scene_option_json(list[i]))
}

/// Gives the JSON forms of the items of a list, in order.
fn encode_scene_option_items(list: &Vec<SceneOption>) -> (items: Vec<Value>)
    ensures
        models(items@) == scene_options_json(models(list@)),
{
    let mut items: Vec<Value> = Vec::new();
    let mut i: usize = 0;
    while i < list.len()
        invariant
            i <= list.len(),
            items@.len() == i,
            forall|j: int| 0 <= j < i ==> (#[trigger] items@[j])@ == scene_option_json(list@[j]@),
        decreases list.len() - i,
    {
        items.push(encode_scene_option(&list[i]));
        i = i + 1;
    }
    assert(models(items@) =~= scene_options_json(models(list@)));
    items
}

/// Gives the JSON form of a list of scene options: an array of their forms.
pub fn encode_scene_options(options: &Vec<SceneOption>) -> (json: Value)
    ensures
        json@ == ValueModel::Array(scene_options_json(models(options@))),
{
    array(encode_scene_option_items(options))
}

} // verus!
