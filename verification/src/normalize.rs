//! The response normaliser: the transforms applied to a decoded answer before
//! it is handed on. Each of them is total.

use vstd::prelude::*;
use vstd::string::{StrSliceExecFns, StringExecFns};

use crate::capability::{
    find_by_instance, first_named, instance_names, lemma_first_named, StateModel,
};
use crate::device::{DeviceModel, DeviceState, DeviceStateModel, GoveeDevice};
use crate::model::models;
use crate::scene::{
    DynamicScenePayload, SceneCapabilityModel, SceneOption, SceneOptionModel, ScenePayloadModel,
};
use crate::temperature::{
    celsius_of_double, celsius_of_integer, double_is_finite, double_to_celsius, integer_to_celsius,
};
use crate::value::{Value, ValueModel};

verus! {

/// The prefix that the vendor puts before every device type.
pub open spec fn type_prefix() -> Seq<char> {
    "devices.types."@
}

/// A device type without the vendor's prefix: what follows the prefix where
/// the label begins with it, the label itself where it does not.
pub open spec fn bare_type_label(label: Seq<char>) -> Seq<char> {
    if type_prefix().is_prefix_of(label) {
        label.skip(type_prefix().len() as int)
    } else {
        label
    }
}

/// Strips the vendor's prefix from a device type.
pub fn normalize_type_label(label: &str) -> (bare: String)
    ensures
        bare@ == bare_type_label(label@),
{
    let prefix = "devices.types.";
    proof {
        reveal_strlit("devices.types.");
    }
    let len = label.unicode_len();
    let prefix_len = prefix.unicode_len();
    if len < prefix_len {
        return String::from_str(label);
    }
    let mut i: usize = 0;
    while i < prefix_len
        invariant
            i <= prefix_len <= len,
            len == label@.len(),
            prefix_len == prefix@.len(),
            prefix@ == type_prefix(),
            forall|j: int| 0 <= j < i ==> label@[j] == prefix@[j],
        decreases prefix_len - i,
    {
        if label.get_char(i) != prefix.get_char(i) {
            assert(label@.subrange(0, prefix@.len() as int)[i as int] != prefix@[i as int]);
            return String::from_str(label);
        }
        i = i + 1;
    }
    assert(label@.subrange(0, prefix@.len() as int) =~= prefix@);
    String::from_str(label.substring_char(prefix_len, len))
}

/// A label that begins with the vendor's prefix loses exactly the prefix, and
/// any other label stays as it is.
pub proof fn lemma_bare_type_label(label: Seq<char>, rest: Seq<char>)
    ensures
        bare_type_label(type_prefix() + rest) == rest,
        !type_prefix().is_prefix_of(label) ==> bare_type_label(label) == label,
        type_prefix().is_prefix_of(label) ==> type_prefix() + bare_type_label(label) == label,
{
    let whole = type_prefix() + rest;
    assert(whole.subrange(0, type_prefix().len() as int) =~= type_prefix());
    assert(whole.skip(type_prefix().len() as int) =~= rest);
    if type_prefix().is_prefix_of(label) {
        assert(type_prefix() + label.skip(type_prefix().len() as int) =~= label);
    }
}

/// A device with its type label stripped of the vendor's prefix, and nothing
/// else changed.
pub open spec fn normalized_device(device: DeviceModel) -> DeviceModel {
    DeviceModel { device_type: bare_type_label(device.device_type), ..device }
}

/// The devices of a list, each with its type label stripped of the vendor's
/// prefix, in the same order.
pub open spec fn normalized_devices(devices: Seq<DeviceModel>) -> Seq<DeviceModel> {
    Seq::new(devices.len(), |i: int| normalized_device(devices[i]))
}

/// Strips the vendor's prefix from the type label of every device.
pub fn normalize_devices(devices: &mut Vec<GoveeDevice>)
    ensures
        models(final(devices)@) == normalized_devices(models(old(devices)@)),
{
    let mut i: usize = 0;
    while i < devices.len()
        invariant
            i <= devices.len(),
            devices@.len() == old(devices)@.len(),
            forall|j: int|
                0 <= j < i ==> (#[trigger] devices@[j])@ == normalized_device(old(devices)@[j]@),
            forall|j: int| i <= j < devices@.len() ==> devices@[j] == old(devices)@[j],
        decreases devices.len() - i,
    {
        let bare = normalize_type_label(devices[i].device_type.as_str());
        let device = &mut devices[i];
        device.device_type = bare;
        i = i + 1;
    }
    assert(models(devices@) =~= normalized_devices(models(old(devices)@)));
}

/// The instance name of the capability that reports a temperature.
pub open spec fn temperature_instance() -> Seq<char> {
    "sensorTemperature"@
}

/// A reading in degrees Fahrenheit as rounded degrees Celsius.
///
/// An integer becomes the integer nearest to `(f - 32) * 5 / 9`. So does a
/// floating-point number, taken exactly, where it is finite and the result
/// lies within `i64`. Any other value is not a reading and stays as it is.
pub open spec fn celsius_value(value: ValueModel) -> ValueModel {
    match value {
        ValueModel::Integer(f) => ValueModel::Integer(celsius_of_integer(f as int) as i64),
        ValueModel::Float(bits) => if double_is_finite(bits) && i64::MIN <= celsius_of_double(bits)
            <= i64::MAX {
            ValueModel::Integer(celsius_of_double(bits) as i64)
        } else {
            value
        },
        _ => value,
    }
}

/// The instance names of the capabilities of a device state, in order.
pub open spec fn state_instances(capabilities: Seq<StateModel>) -> Seq<Seq<char>> {
    Seq::new(capabilities.len(), |i: int| capabilities[i].instance)
}

/// A device state with the reading of its first temperature capability in
/// degrees Celsius, and nothing else changed.
pub open spec fn normalized_state(state: DeviceStateModel) -> DeviceStateModel {
    match first_named(state_instances(state.capabilities), temperature_instance()) {
        Some(i) => DeviceStateModel {
            capabilities: state.capabilities.update(
                i,
                StateModel {
                    value: celsius_value(state.capabilities[i].value),
                    ..state.capabilities[i]
                },
            ),
            ..state
        },
        None => state,
    }
}

/// Normalisation converts one reading, once: the first temperature capability
/// has its value converted and keeps its kind and its name, every other
/// capability stays as it is, and a state without a temperature capability
/// is not changed at all.
pub proof fn lemma_normalized_state_converts_once(state: DeviceStateModel)
    ensures
        normalized_state(state).device == state.device,
        normalized_state(state).sku == state.sku,
        normalized_state(state).capabilities.len() == state.capabilities.len(),
        match first_named(state_instances(state.capabilities), temperature_instance()) {
            Some(i) => {
                &&& 0 <= i < state.capabilities.len()
                &&& state.capabilities[i].instance == temperature_instance()
                &&& normalized_state(state).capabilities[i].value == celsius_value(
                    state.capabilities[i].value,
                )
                &&& normalized_state(state).capabilities[i].kind == state.capabilities[i].kind
                &&& normalized_state(state).capabilities[i].instance
                    == state.capabilities[i].instance
                &&& forall|j: int|
                    0 <= j < state.capabilities.len() && j != i ==> normalized_state(
                        state,
                    ).capabilities[j] == state.capabilities[j]
            },
            None => {
                &&& normalized_state(state) == state
                &&& forall|j: int|
                    0 <= j < state.capabilities.len() ==> state.capabilities[j].instance
                        != temperature_instance()
            },
        },
{
    let names = state_instances(state.capabilities);
    lemma_first_named(names, temperature_instance());
    assert forall|j: int| 0 <= j < state.capabilities.len() implies names[j]
        == #[trigger] state.capabilities[j].instance by {}
}

/// A converted reading is a whole number, and a value that is no number is
/// not touched.
pub proof fn lemma_celsius_value(value: ValueModel)
    ensures
        value is Integer ==> celsius_value(value) == ValueModel::Integer(
            celsius_of_integer(value->Integer_0 as int) as i64,
        ) && celsius_value(value)->Integer_0 == celsius_of_integer(value->Integer_0 as int),
        value is Float ==> (celsius_value(value) is Integer || celsius_value(value) == value),
        !(value is Integer || value is Float) ==> celsius_value(value) == value,
{
    if value is Integer {
        crate::temperature::lemma_integer_celsius_in_range(value->Integer_0 as int);
    }
}

/// Converts a reading in degrees Fahrenheit to rounded degrees Celsius.
pub fn to_celsius(value: Value) -> (converted: Value)
    ensures
        converted@ == celsius_value(value@),
{
    match value {
        Value::Integer(f) => Value::Integer(integer_to_celsius(f)),
        Value::Float(bits) => match double_to_celsius(bits) {
            Some(c) => Value::Integer(c),
            None => Value::Float(bits),
        },
        other => other,
    }
}

/// Converts the reading of the temperature capability of a device state, if
/// it has one, from degrees Fahrenheit to rounded degrees Celsius.
pub fn normalize_temperature(state: &mut DeviceState)
    ensures
        final(state)@ == normalized_state(old(state)@),
{
    assert(instance_names(state.capabilities@) =~= state_instances(state@.capabilities));
    match find_by_instance(&state.capabilities, "sensorTemperature") {
        Some(i) => {
            proof {
                lemma_first_named(instance_names(state.capabilities@), temperature_instance());
            }
            let converted = match &state.capabilities[i].value {
                Value::Integer(f) => Some(integer_to_celsius(*f)),
                Value::Float(bits) => double_to_celsius(*bits),
                _ => None,
            };
            if let Some(c) = converted {
                let capability = &mut state.capabilities[i];
                capability.value = Value::Integer(c);
            }
            assert(models(state.capabilities@) =~= normalized_state(old(state)@).capabilities);
        },
        None => {},
    }
}

/// The instance names of the capabilities of a scenes payload, in order.
pub open spec fn scene_instances(capabilities: Seq<SceneCapabilityModel>) -> Seq<Seq<char>> {
    Seq::new(capabilities.len(), |i: int| capabilities[i].instance)
}

/// The options of the first capability named `instance`, as they stand; nothing
/// where no capability carries the name.
pub open spec fn scene_options(payload: ScenePayloadModel, instance: Seq<char>) -> Option<
    Seq<SceneOptionModel>,
> {
    match first_named(scene_instances(payload.capabilities), instance) {
        Some(i) => Some(payload.capabilities[i].options),
        None => None,
    }
}

/// The options found are those of a capability whose name is exactly the one
/// asked for, and of the first such; none are found only where no capability
/// carries the name.
pub proof fn lemma_scene_options(payload: ScenePayloadModel, instance: Seq<char>)
    ensures
        match scene_options(payload, instance) {
            Some(options) => exists|i: int|
                {
                    &&& 0 <= i < payload.capabilities.len()
                    &&& (#[trigger] payload.capabilities[i]).instance == instance
                    &&& options == payload.capabilities[i].options
                    &&& forall|j: int| 0 <= j < i ==> payload.capabilities[j].instance != instance
                },
            None => forall|j: int|
                0 <= j < payload.capabilities.len() ==> payload.capabilities[j].instance
                    != instance,
        },
{
    let names = scene_instances(payload.capabilities);
    lemma_first_named(names, instance);
    assert forall|j: int| 0 <= j < payload.capabilities.len() implies names[j]
        == #[trigger] payload.capabilities[j].instance by {}
    match first_named(names, instance) {
        Some(i) => {
            assert(payload.capabilities[i].instance == instance);
        },
        None => {},
    }
}

/// Takes the options of the capability named `instance` out of a scenes
/// payload, unchanged and in order.
pub fn extract_scene_options(payload: DynamicScenePayload, instance: &str) -> (options: Option<
    Vec<SceneOption>,
>)
    ensures
        optional_options(options) == scene_options(payload@, instance@),
{
    let mut capabilities = payload.capabilities;
    assert(instance_names(capabilities@) =~= scene_instances(payload@.capabilities));
    match find_by_instance(&capabilities, instance) {
        Some(i) => {
            proof {
                lemma_first_named(instance_names(capabilities@), instance@);
            }
            let capability = capabilities.remove(i);
            Some(capability.parameters.options)
        },
        None => None,
    }
}

/// The models of a list of options that may be absent.
pub open spec fn optional_options(options: Option<Vec<SceneOption>>) -> Option<
    Seq<SceneOptionModel>,
> {
    match options {
        Some(list) => Some(models(list@)),
        None => None,
    }
}

} // verus!
