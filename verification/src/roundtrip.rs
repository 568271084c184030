//! What the library writes, it reads back: the JSON form of a value, read
//! against the wire schema, gives the value again.

use vstd::prelude::*;

use crate::capability::{CapabilityModel, StateModel};
use crate::device::{DeviceModel, DeviceStateModel};
use crate::encode::{
    capabilities_json, capability_json, device_json, device_state_json, devices_json,
    scene_option_json, scene_options_json, scene_value_json, state_json, states_json,
};
use crate::scene::{SceneOptionModel, SceneValue};
use crate::schema::{
    capability_results, capability_schema, collected, device_results, device_schema,
    device_state_schema, scene_option_results, scene_option_schema, scene_value_schema,
    state_results, state_schema,
};
use crate::value::{lookup, ValueModel};

verus! {

/// The field names of the schema are distinct texts.
proof fn lemma_field_names()
    ensures
        "type"@ != "instance"@,
        "type"@ != "parameters"@,
        "instance"@ != "parameters"@,
        "type"@ != "state"@,
        "instance"@ != "state"@,
        "sku"@ != "device"@,
        "sku"@ != "type"@,
        "sku"@ != "deviceName"@,
        "sku"@ != "capabilities"@,
        "device"@ != "type"@,
        "device"@ != "deviceName"@,
        "device"@ != "capabilities"@,
        "type"@ != "deviceName"@,
        "type"@ != "capabilities"@,
        "deviceName"@ != "capabilities"@,
        "name"@ != "value"@,
        "paramId"@ != "id"@,
        "capabilities"@ != "device"@,
        "capabilities"@ != "sku"@,
{
    reveal_strlit("type");
    reveal_strlit("instance");
    reveal_strlit("parameters");
    reveal_strlit("state");
    reveal_strlit("sku");
    reveal_strlit("device");
    reveal_strlit("deviceName");
    reveal_strlit("capabilities");
    reveal_strlit("name");
    reveal_strlit("value");
    reveal_strlit("paramId");
    reveal_strlit("id");
    assert("type"@[0] != "instance"@[0]);
    assert("type"@[0] != "parameters"@[0]);
    assert("instance"@[0] != "parameters"@[0]);
    assert("type"@[0] != "state"@[0]);
    assert("instance"@[0] != "state"@[0]);
    assert("sku"@[0] != "device"@[0]);
    assert("sku"@[0] != "type"@[0]);
    assert("sku"@[0] != "deviceName"@[0]);
    assert("sku"@[0] != "capabilities"@[0]);
    assert("device"@[0] != "type"@[0]);
    assert("device"@.len() != "deviceName"@.len());
    assert("device"@[0] != "capabilities"@[0]);
    assert("type"@[0] != "deviceName"@[0]);
    assert("type"@[0] != "capabilities"@[0]);
    assert("deviceName"@[0] != "capabilities"@[0]);
    assert("name"@[0] != "value"@[0]);
    assert("paramId"@[0] != "id"@[0]);
    assert("capabilities"@[0] != "device"@[0]);
    assert("capabilities"@[0] != "sku"@[0]);
}

/// A declared capability reads back from its JSON form, unless its
/// parameters are an explicit null, which reads back as absent.
pub proof fn lemma_capability_reads_back(capability: CapabilityModel)
    requires
        capability.parameters != Some(ValueModel::Null),
    ensures
        capability_schema(capability_json(capability)) == Ok::<CapabilityModel, Seq<char>>(
            capability,
        ),
{
    lemma_field_names();
    reveal_with_fuel(lookup, 4);
}

/// Results that are all readings gather to the list of what was read.
pub proof fn lemma_collected_all<T>(results: Seq<Result<T, Seq<char>>>, list: Seq<T>)
    requires
        results.len() == list.len(),
        forall|i: int| 0 <= i < list.len() ==> results[i] == Ok::<T, Seq<char>>(list[i]),
    ensures
        collected(results) == Ok::<Seq<T>, Seq<char>>(list),
    decreases results.len(),
{
    if results.len() == 0 {
        assert(list =~= Seq::<T>::empty());
    } else {
        lemma_collected_all(results.drop_last(), list.drop_last());
        assert(list.drop_last().push(list.last()) =~= list);
    }
}

/// Whether none of the capabilities has an explicit null for its parameters.
pub open spec fn parameters_given_or_absent(capabilities: Seq<CapabilityModel>) -> bool {
    forall|i: int|
        0 <= i < capabilities.len() ==> (#[trigger] capabilities[i]).parameters != Some(
            ValueModel::Null,
        )
}

/// The declared capabilities of a device read back from their JSON forms.
pub proof fn lemma_capabilities_read_back(capabilities: Seq<CapabilityModel>)
    requires
        parameters_given_or_absent(capabilities),
    ensures
        collected(capability_results(capabilities_json(capabilities))) == Ok::<
            Seq<CapabilityModel>,
            Seq<char>,
        >(capabilities),
{
    let results = capability_results(capabilities_json(capabilities));
    assert forall|i: int| 0 <= i < capabilities.len() implies results[i] == Ok::<
        CapabilityModel,
        Seq<char>,
    >(capabilities[i]) by {
        lemma_capability_reads_back(capabilities[i]);
    }
    lemma_collected_all(results, capabilities);
}

/// A device reads back from its JSON form.
pub proof fn lemma_device_reads_back(device: DeviceModel)
    requires
        parameters_given_or_absent(device.capabilities),
    ensures
        device_schema(device_json(device)) == Ok::<DeviceModel, Seq<char>>(device),
{
    lemma_field_names();
    reveal_with_fuel(lookup, 6);
    lemma_capabilities_read_back(device.capabilities);
}

/// A list of devices reads back from the JSON forms of its devices.
pub proof fn lemma_devices_read_back(devices: Seq<DeviceModel>)
    requires
        forall|i: int|
            0 <= i < devices.len() ==> parameters_given_or_absent(
                (#[trigger] devices[i]).capabilities,
            ),
    ensures
        collected(device_results(devices_json(devices))) == Ok::<Seq<DeviceModel>, Seq<char>>(
            devices,
        ),
{
    let results = device_results(devices_json(devices));
    assert forall|i: int| 0 <= i < devices.len() implies results[i] == Ok::<
        DeviceModel,
        Seq<char>,
    >(devices[i]) by {
        lemma_device_reads_back(devices[i]);
    }
    lemma_collected_all(results, devices);
}

/// The live value of a capability reads back from its JSON form, whatever
/// the value is.
pub proof fn lemma_state_reads_back(state: StateModel)
    ensures
        state_schema(state_json(state)) == Ok::<StateModel, Seq<char>>(state),
{
    lemma_field_names();
    reveal_with_fuel(lookup, 4);
}

/// The state of a device reads back from its JSON form.
pub proof fn lemma_device_state_reads_back(state: DeviceStateModel)
    ensures
        device_state_json(state) is Object,
        device_state_schema(device_state_json(state)->Object_0) == Ok::<
            DeviceStateModel,
            Seq<char>,
        >(state),
{
    lemma_field_names();
    reveal_with_fuel(lookup, 4);
    let results = state_results(states_json(state.capabilities));
    assert forall|i: int| 0 <= i < state.capabilities.len() implies results[i] == Ok::<
        StateModel,
        Seq<char>,
    >(state.capabilities[i]) by {
        lemma_state_reads_back(state.capabilities[i]);
    }
    lemma_collected_all(results, state.capabilities);
}

/// The identifier of a scene reads back from its JSON form in the shape in
/// which it was written.
pub proof fn lemma_scene_value_reads_back(value: SceneValue)
    ensures
        scene_value_schema(scene_value_json(value)) == Ok::<SceneValue, Seq<char>>(value),
{
    lemma_field_names();
    reveal_with_fuel(lookup, 3);
}

/// A scene option reads back from its JSON form.
pub proof fn lemma_scene_option_reads_back(option: SceneOptionModel)
    ensures
        scene_option_schema(scene_option_json(option)) == Ok::<SceneOptionModel, Seq<char>>(
            option,
        ),
{
    lemma_field_names();
    reveal_with_fuel(lookup, 3);
    lemma_scene_value_reads_back(option.value);
}

/// A list of scene options reads back from the JSON forms of its options.
pub proof fn lemma_scene_options_read_back(options: Seq<SceneOptionModel>)
    ensures
        collected(scene_option_results(scene_options_json(options))) == Ok::<
            Seq<SceneOptionModel>,
            Seq<char>,
        >(options),
{
    let results = scene_option_results(scene_options_json(options));
    assert forall|i: int| 0 <= i < options.len() implies results[i] == Ok::<
        SceneOptionModel,
        Seq<char>,
    >(options[i]) by {
        lemma_scene_option_reads_back(options[i]);
    }
    lemma_collected_all(results, options);
}

} // verus!
