//! The wire schema: the field names that the vendor fixes, and the reading of
//! a loosely typed answer against them.
//!
//! A field that the schema does not name is ignored. A field that may be
//! absent is absent where it is missing and where it is null.

use vstd::prelude::*;
use vstd::string::StringExecFns;

use crate::capability::{CapabilityModel, CapabilityState, GoveeCapability, StateModel};
use crate::device::{DeviceModel, DeviceState, DeviceStateModel, GoveeDevice};
use crate::model::models;
use crate::scene::{
    DynamicSceneCapability, DynamicSceneParameters, DynamicScenePayload, SceneCapabilityModel,
    SceneOption, SceneOptionModel, ScenePayloadModel, SceneValue,
};
use crate::value::{
    clone_value, field, field_models, lemma_view_of_structured, lookup, Value, ValueModel,
};
use crate::wire::{DeviceListModel, GoveeResponse, ResponseEnvelope, ResponseModel};

verus! {

/// The fields of an object, as the schema reads them.
pub type Fields = Seq<(Seq<char>, ValueModel)>;

/// The reason given where a field that must be there is not.
pub open spec fn missing(name: Seq<char>) -> Seq<char> {
    "missing field `"@ + name + "`"@
}

/// The reason given where a value is not of the type that the schema asks
/// for.
pub open spec fn mistyped(name: Seq<char>) -> Seq<char> {
    "invalid type for `"@ + name + "`"@
}

/// Words the reason for a missing field.
fn missing_reason(name: &str) -> (reason: String)
    ensures
        reason@ == missing(name@),
{
    let mut reason = String::from_str("missing field `");
    reason.append(name);
    reason.append("`");
    reason
}

/// Words the reason for a value of the wrong type.
fn mistyped_reason(name: &str) -> (reason: String)
    ensures
        reason@ == mistyped(name@),
{
    let mut reason = String::from_str("invalid type for `");
    reason.append(name);
    reason.append("`");
    reason
}

/// The fields of a value that must be an object; `name` says what the value
/// is, for the reason given where it is none.
pub open spec fn fields_of(json: ValueModel, name: Seq<char>) -> Result<Fields, Seq<char>> {
    match json {
        ValueModel::Object(fields) => Ok(fields),
        _ => Err(mistyped(name)),
    }
}

/// The items of a value that must be an array.
pub open spec fn items_of(json: ValueModel, name: Seq<char>) -> Result<
    Seq<ValueModel>,
    Seq<char>,
> {
    match json {
        ValueModel::Array(items) => Ok(items),
        _ => Err(mistyped(name)),
    }
}

/// A field that must be there, whatever it holds.
pub open spec fn required(fields: Fields, name: Seq<char>) -> Result<ValueModel, Seq<char>> {
    match lookup(fields, name) {
        Some(value) => Ok(value),
        None => Err(missing(name)),
    }
}

/// A field that may be absent: absent where it is missing or null.
pub open spec fn optional(fields: Fields, name: Seq<char>) -> Option<ValueModel> {
    match lookup(fields, name) {
        Some(ValueModel::Null) => None,
        other => other,
    }
}

/// A field that must hold a text.
pub open spec fn text_of(fields: Fields, name: Seq<char>) -> Result<Seq<char>, Seq<char>> {
    match lookup(fields, name) {
        Some(ValueModel::Text(text)) => Ok(text),
        Some(_) => Err(mistyped(name)),
        None => Err(missing(name)),
    }
}

/// A field that holds a text where it is there.
pub open spec fn optional_text_of(fields: Fields, name: Seq<char>) -> Result<
    Option<Seq<char>>,
    Seq<char>,
> {
    match optional(fields, name) {
        Some(ValueModel::Text(text)) => Ok(Some(text)),
        Some(_) => Err(mistyped(name)),
        None => Ok(None),
    }
}

/// A field that must hold a whole number.
pub open spec fn integer_of(fields: Fields, name: Seq<char>) -> Result<i64, Seq<char>> {
    match lookup(fields, name) {
        Some(ValueModel::Integer(n)) => Ok(n),
        Some(_) => Err(mistyped(name)),
        None => Err(missing(name)),
    }
}

/// A field that must hold a status code: a whole number within the range of
/// `i32`.
pub open spec fn code_of(fields: Fields, name: Seq<char>) -> Result<i32, Seq<char>> {
    match integer_of(fields, name) {
        Ok(n) => if i32::MIN <= n <= i32::MAX {
            Ok(n as i32)
        } else {
            Err(mistyped(name))
        },
        Err(reason) => Err(reason),
    }
}

/// A field that must hold an object.
pub open spec fn object_of(fields: Fields, name: Seq<char>) -> Result<Fields, Seq<char>> {
    match required(fields, name) {
        Ok(value) => fields_of(value, name),
        Err(reason) => Err(reason),
    }
}

/// A field that must hold an array.
pub open spec fn array_of(fields: Fields, name: Seq<char>) -> Result<Seq<ValueModel>, Seq<char>> {
    match required(fields, name) {
        Ok(value) => items_of(value, name),
        Err(reason) => Err(reason),
    }
}

/// The results of reading the items of an array one by one, gathered: the
/// list of what was read where every item could be read, and the reason of
/// the first item that could not be where there is one.
pub open spec fn collected<T>(results: Seq<Result<T, Seq<char>>>) -> Result<Seq<T>, Seq<char>>
    decreases results.len(),
{
    if results.len() == 0 {
        Ok(Seq::empty())
    } else {
        match collected(results.drop_last()) {
            Err(reason) => Err(reason),
            Ok(list) => match results.last() {
                Err(reason) => Err(reason),
                Ok(item) => Ok(list.push(item)),
            },
        }
    }
}

/// What was gathered has one item for every result, each the one that was
/// read; and gathering fails exactly where a result is a failure, with the
/// reason of the first.
pub proof fn lemma_collected<T>(results: Seq<Result<T, Seq<char>>>)
    ensures
        match collected(results) {
            Ok(list) => {
                &&& list.len() == results.len()
                &&& forall|i: int|
                    0 <= i < results.len() ==> results[i] == Ok::<T, Seq<char>>(list[i])
            },
            Err(reason) => exists|i: int|
                {
                    &&& 0 <= i < results.len()
                    &&& #[trigger] results[i] == Err::<T, Seq<char>>(reason)
                    &&& forall|j: int| 0 <= j < i ==> results[j] is Ok
                },
        },
    decreases results.len(),
{
    if results.len() > 0 {
        let init = results.drop_last();
        lemma_collected(init);
        match collected(init) {
            Err(reason) => {
                let i = choose|i: int|
                    {
                        &&& 0 <= i < init.len()
                        &&& #[trigger] init[i] == Err::<T, Seq<char>>(reason)
                        &&& forall|j: int| 0 <= j < i ==> init[j] is Ok
                    };
                assert(results[i] == init[i]);
                assert forall|j: int| 0 <= j < i implies results[j] is Ok by {
                    assert(results[j] == init[j]);
                }
            },
            Ok(list) => {
                match results.last() {
                    Err(reason) => {
                        let i = results.len() - 1;
                        assert(results[i] == Err::<T, Seq<char>>(reason));
                        assert forall|j: int| 0 <= j < i implies results[j] is Ok by {
                            assert(results[j] == init[j]);
                        }
                    },
                    Ok(item) => {
                        assert forall|i: int| 0 <= i < results.len() implies results[i] == Ok::<
                            T,
                            Seq<char>,
                        >(list.push(item)[i]) by {
                            if i < init.len() {
                                assert(results[i] == init[i]);
                            }
                        }
                    },
                }
            },
        }
    }
}

/// Once the first results fail to gather, so do all of them, for the same
/// reason.
pub proof fn lemma_collected_stays_failed<T>(results: Seq<Result<T, Seq<char>>>, n: int)
    requires
        0 <= n <= results.len(),
        collected(results.take(n)) is Err,
    ensures
        collected(results) == collected(results.take(n)),
    decreases results.len() - n,
{
    if n == results.len() {
        assert(results.take(n) == results);
    } else {
        assert(results.take(n + 1).drop_last() == results.take(n));
        lemma_collected_stays_failed(results, n + 1);
    }
}

/// Reads a value that must be an object.
pub fn as_fields<'a>(json: &'a Value, name: &str) -> (fields: Result<
    &'a Vec<(String, Value)>,
    String,
>)
    ensures
        match fields {
            Ok(list) => fields_of(json@, name@) == Ok::<Fields, Seq<char>>(field_models(list@)),
            Err(reason) => fields_of(json@, name@) == Err::<Fields, Seq<char>>(reason@),
        },
{
    proof {
        lemma_view_of_structured(*json);
    }
    match json {
        Value::Object(fields) => Ok(fields),
        _ => Err(mistyped_reason(name)),
    }
}

/// Reads a value that must be an array.
pub fn as_items<'a>(json: &'a Value, name: &str) -> (items: Result<&'a Vec<Value>, String>)
    ensures
        match items {
            Ok(list) => items_of(json@, name@) == Ok::<Seq<ValueModel>, Seq<char>>(
                models(list@),
            ),
            Err(reason) => items_of(json@, name@) == Err::<Seq<ValueModel>, Seq<char>>(reason@),
        },
{
    proof {
        lemma_view_of_structured(*json);
    }
    match json {
        Value::Array(items) => Ok(items),
        _ => Err(mistyped_reason(name)),
    }
}

/// Reads a field that must be there.
pub fn required_field<'a>(fields: &'a Vec<(String, Value)>, name: &str) -> (value: Result<
    &'a Value,
    String,
>)
    ensures
        match value {
            Ok(v) => required(field_models(fields@), name@) == Ok::<ValueModel, Seq<char>>(v@),
            Err(reason) => required(field_models(fields@), name@) == Err::<ValueModel, Seq<char>>(
                reason@,
            ),
        },
{
    match field(fields, name) {
        Some(value) => Ok(value),
        None => Err(missing_reason(name)),
    }
}

/// Reads a field that may be absent.
pub fn optional_field<'a>(fields: &'a Vec<(String, Value)>, name: &str) -> (value: Option<
    &'a Value,
>)
    ensures
        match value {
            Some(v) => optional(field_models(fields@), name@) == Some(v@),
            None => optional(field_models(fields@), name@) is None,
        },
{
    match field(fields, name) {
        Some(Value::Null) => None,
        other => other,
    }
}

/// Reads a field that must hold a text.
pub fn text_field(fields: &Vec<(String, Value)>, name: &str) -> (text: Result<String, String>)
    ensures
        match text {
            Ok(t) => text_of(field_models(fields@), name@) == Ok::<Seq<char>, Seq<char>>(t@),
            Err(reason) => text_of(field_models(fields@), name@) == Err::<Seq<char>, Seq<char>>(
                reason@,
            ),
        },
{
    match field(fields, name) {
        Some(Value::Text(text)) => Ok(text.clone()),
        Some(_) => Err(mistyped_reason(name)),
        None => Err(missing_reason(name)),
    }
}

/// Reads a field that holds a text where it is there.
pub fn optional_text_field(fields: &Vec<(String, Value)>, name: &str) -> (text: Result<
    Option<String>,
    String,
>)
    ensures
        match text {
            Ok(t) => optional_text_of(field_models(fields@), name@) == Ok::<
                Option<Seq<char>>,
                Seq<char>,
            >(crate::model::optional_model(t)),
            Err(reason) => optional_text_of(field_models(fields@), name@) == Err::<
                Option<Seq<char>>,
                Seq<char>,
            >(reason@),
        },
{
    match optional_field(fields, name) {
        Some(Value::Text(text)) => Ok(Some(text.clone())),
        Some(_) => Err(mistyped_reason(name)),
        None => Ok(None),
    }
}

/// Reads a field that must hold a whole number.
pub fn integer_field(fields: &Vec<(String, Value)>, name: &str) -> (number: Result<i64, String>)
    ensures
        match number {
            Ok(n) => integer_of(field_models(fields@), name@) == Ok::<i64, Seq<char>>(n),
            Err(reason) => integer_of(field_models(fields@), name@) == Err::<i64, Seq<char>>(
                reason@,
            ),
        },
{
    match field(fields, name) {
        Some(Value::Integer(n)) => Ok(*n),
        Some(_) => Err(mistyped_reason(name)),
        None => Err(missing_reason(name)),
    }
}

/// Reads a field that must hold a status code.
pub fn code_field(fields: &Vec<(String, Value)>, name: &str) -> (code: Result<i32, String>)
    ensures
        match code {
            Ok(n) => code_of(field_models(fields@), name@) == Ok::<i32, Seq<char>>(n),
            Err(reason) => code_of(field_models(fields@), name@) == Err::<i32, Seq<char>>(reason@),
        },
{
    match integer_field(fields, name) {
        Ok(n) => {
            if -2147483648 <= n && n <= 2147483647 {
                Ok(n as i32)
            } else {
                Err(mistyped_reason(name))
            }
        },
        Err(reason) => Err(reason),
    }
}

/// Reads a field that must hold an object.
pub fn object_field<'a>(fields: &'a Vec<(String, Value)>, name: &str) -> (inner: Result<
    &'a Vec<(String, Value)>,
    String,
>)
    ensures
        match inner {
            Ok(list) => object_of(field_models(fields@), name@) == Ok::<Fields, Seq<char>>(
                field_models(list@),
            ),
            Err(reason) => object_of(field_models(fields@), name@) == Err::<Fields, Seq<char>>(
                reason@,
            ),
        },
{
    match required_field(fields, name) {
        Ok(value) => as_fields(value, name),
        Err(reason) => Err(reason),
    }
}

/// Reads a field that must hold an array.
pub fn array_field<'a>(fields: &'a Vec<(String, Value)>, name: &str) -> (items: Result<
    &'a Vec<Value>,
    String,
>)
    ensures
        match items {
            Ok(list) => array_of(field_models(fields@), name@) == Ok::<
                Seq<ValueModel>,
                Seq<char>,
            >(models(list@)),
            Err(reason) => array_of(field_models(fields@), name@) == Err::<
                Seq<ValueModel>,
                Seq<char>,
            >(reason@),
        },
{
    match required_field(fields, name) {
        Ok(value) => as_items(value, name),
        Err(reason) => Err(reason),
    }
}

/// A declared capability, read from its JSON form: `type` and `instance`
/// must be texts, and `parameters` may be absent.
pub open spec fn capability_schema(json: ValueModel) -> Result<CapabilityModel, Seq<char>> {
    match fields_of(json, "capabilities"@) {
        Err(reason) => Err(reason),
        Ok(fields) => match text_of(fields, "type"@) {
            Err(reason) => Err(reason),
            Ok(kind) => match text_of(fields, "instance"@) {
                Err(reason) => Err(reason),
                Ok(instance) => Ok(
                    CapabilityModel { kind, instance, parameters: optional(fields, "parameters"@) },
                ),
            },
        },
    }
}

/// The declared capabilities of a device, read one by one.
pub open spec fn capability_results(items: Seq<ValueModel>) -> Seq<
    Result<CapabilityModel, Seq<char>>,
> {
    Seq::new(items.len(), |i: int| capability_schema(items[i]))
}

/// Reads a declared capability.
pub fn decode_capability(json: &Value) -> (capability: Result<GoveeCapability, String>)
    ensures
        match capability {
            Ok(c) => capability_schema(json@) == Ok::<CapabilityModel, Seq<char>>(c@),
            Err(reason) => capability_schema(json@) == Err::<CapabilityModel, Seq<char>>(reason@),
        },
{
    let fields = as_fields(json, "capabilities")?;
    let capability_type = text_field(fields, "type")?;
    let instance = text_field(fields, "instance")?;
    let parameters = match optional_field(fields, "parameters") {
        Some(value) => Some(clone_value(value)),
        None => None,
    };
    Ok(GoveeCapability { capability_type, instance, parameters })
}

/// Reads the declared capabilities of a device.
pub fn decode_capabilities(items: &Vec<Value>) -> (capabilities: Result<
    Vec<GoveeCapability>,
    String,
>)
    ensures
        match capabilities {
            Ok(list) => collected(capability_results(models(items@))) == Ok::<
                Seq<CapabilityModel>,
                Seq<char>,
            >(models(list@)),
            Err(reason) => collected(capability_results(models(items@))) == Err::<
                Seq<CapabilityModel>,
                Seq<char>,
            >(reason@),
        },
{
    let ghost results = capability_results(models(items@));
    let mut list: Vec<GoveeCapability> = Vec::new();
    let mut i: usize = 0;
    assert(models(list@) =~= Seq::<CapabilityModel>::empty());
    while i < items.len()
        invariant
            i <= items.len(),
            results == capability_results(models(items@)),
            collected(results.take(i as int)) == Ok::<Seq<CapabilityModel>, Seq<char>>(
                models(list@),
            ),
        decreases items.len() - i,
    {
        assert(results.take(i + 1).drop_last() == results.take(i as int));
        assert(results.take(i + 1).last() == capability_schema(items@[i as int]@));
        match decode_capability(&items[i]) {
            Err(reason) => {
                proof {
                    lemma_collected_stays_failed(results, i + 1);
                }
                return Err(reason);
            },
            Ok(item) => {
                let ghost before = models(list@);
                list.push(item);
                assert(models(list@) =~= before.push(item@));
            },
        }
        i = i + 1;
    }
    assert(results.take(i as int) == results);
    Ok(list)
}

/// A device, read from its JSON form: `sku`, `device` and `type` must be texts,
/// `deviceName` may be absent, and `capabilities` must be an array of
/// capabilities.
pub open spec fn device_schema(json: ValueModel) -> Result<DeviceModel, Seq<char>> {
    match fields_of(json, "data"@) {
        Err(reason) => Err(reason),
        Ok(fields) => match text_of(fields, "sku"@) {
            Err(reason) => Err(reason),
            Ok(sku) => match text_of(fields, "device"@) {
                Err(reason) => Err(reason),
                Ok(device) => match text_of(fields, "type"@) {
                    Err(reason) => Err(reason),
                    Ok(device_type) => match optional_text_of(fields, "deviceName"@) {
                        Err(reason) => Err(reason),
                        Ok(device_name) => match array_of(fields, "capabilities"@) {
                            Err(reason) => Err(reason),
                            Ok(items) => match collected(capability_results(items)) {
                                Err(reason) => Err(reason),
                                Ok(capabilities) => Ok(
                                    DeviceModel {
                                        sku,
                                        device,
                                        device_type,
                                        device_name,
                                        capabilities,
                                    },
                                ),
                            },
                        },
                    },
                },
            },
        },
    }
}

/// The devices of a list, read one by one.
pub open spec fn device_results(items: Seq<ValueModel>) -> Seq<Result<DeviceModel, Seq<char>>> {
    Seq::new(items.len(), |i: int| device_schema(items[i]))
}

/// Reads a device.
pub fn decode_device(json: &Value) -> (decoded: Result<GoveeDevice, String>)
    ensures
        match decoded {
            Ok(d) => device_schema(json@) == Ok::<DeviceModel, Seq<char>>(d@),
            Err(reason) => device_schema(json@) == Err::<DeviceModel, Seq<char>>(reason@),
        },
{
    let fields = as_fields(json, "data")?;
    let sku = text_field(fields, "sku")?;
    let device = text_field(fields, "device")?;
    let device_type = text_field(fields, "type")?;
    let device_name = optional_text_field(fields, "deviceName")?;
    let items = array_field(fields, "capabilities")?;
    let capabilities = decode_capabilities(items)?;
    Ok(GoveeDevice { sku, device, device_type, device_name, capabilities })
}

/// Reads the devices of a list.
pub fn decode_devices(items: &Vec<Value>) -> (decoded: Result<Vec<GoveeDevice>, String>)
    ensures
        match decoded {
            Ok(list) => collected(device_results(models(items@))) == Ok::<
                Seq<DeviceModel>,
                Seq<char>,
            >(models(list@)),
            Err(reason) => collected(device_results(models(items@))) == Err::<
                Seq<DeviceModel>,
                Seq<char>,
            >(reason@),
        },
{
    let ghost results = device_results(models(items@));
    let mut list: Vec<GoveeDevice> = Vec::new();
    let mut i: usize = 0;
    assert(models(list@) =~= Seq::<DeviceModel>::empty());
    while i < items.len()
        invariant
            i <= items.len(),
            results == device_results(models(items@)),
            collected(results.take(i as int)) == Ok::<Seq<DeviceModel>, Seq<char>>(models(list@)),
        decreases items.len() - i,
    {
        assert(results.take(i + 1).drop_last() == results.take(i as int));
        assert(results.take(i + 1).last() == device_schema(items@[i as int]@));
        match decode_device(&items[i]) {
            Err(reason) => {
                proof {
                    lemma_collected_stays_failed(results, i + 1);
                }
                return Err(reason);
            },
            Ok(item) => {
                let ghost before = models(list@);
                list.push(item);
                assert(models(list@) =~= before.push(item@));
            },
        }
        i = i + 1;
    }
    assert(results.take(i as int) == results);
    Ok(list)
}

/// The answer to a list-devices call, read from its JSON form: `code` must be
/// a status code, `message` a text, and `data` an array of devices.
pub open spec fn device_list_schema(json: ValueModel) -> Result<DeviceListModel, Seq<char>> {
    match fields_of(json, "response"@) {
        Err(reason) => Err(reason),
        Ok(fields) => match code_of(fields, "code"@) {
            Err(reason) => Err(reason),
            Ok(code) => match text_of(fields, "message"@) {
                Err(reason) => Err(reason),
                Ok(message) => match array_of(fields, "data"@) {
                    Err(reason) => Err(reason),
                    Ok(items) => match collected(device_results(items)) {
                        Err(reason) => Err(reason),
                        Ok(data) => Ok(DeviceListModel { code, message, data }),
                    },
                },
            },
        },
    }
}

/// Reads the answer to a list-devices call.
pub fn decode_device_list(json: &Value) -> (decoded: Result<GoveeResponse, String>)
    ensures
        match decoded {
            Ok(d) => device_list_schema(json@) == Ok::<DeviceListModel, Seq<char>>(d@),
            Err(reason) => device_list_schema(json@) == Err::<DeviceListModel, Seq<char>>(reason@),
        },
{
    let fields = as_fields(json, "response")?;
    let code = code_field(fields, "code")?;
    let message = text_field(fields, "message")?;
    let items = array_field(fields, "data")?;
    let data = decode_devices(items)?;
    Ok(GoveeResponse { code, message, data })
}

/// The live value of a capability, read from its JSON form: `type` and
/// `instance` must be texts, and `state` an object with a `value`, which may
/// be anything.
pub open spec fn state_schema(json: ValueModel) -> Result<StateModel, Seq<char>> {
    match fields_of(json, "capabilities"@) {
        Err(reason) => Err(reason),
        Ok(fields) => match text_of(fields, "type"@) {
            Err(reason) => Err(reason),
            Ok(kind) => match text_of(fields, "instance"@) {
                Err(reason) => Err(reason),
                Ok(instance) => match object_of(fields, "state"@) {
                    Err(reason) => Err(reason),
                    Ok(state) => match required(state, "value"@) {
                        Err(reason) => Err(reason),
                        Ok(value) => Ok(StateModel { kind, instance, value }),
                    },
                },
            },
        },
    }
}

/// The live values of the capabilities of a device, read one by one.
pub open spec fn state_results(items: Seq<ValueModel>) -> Seq<Result<StateModel, Seq<char>>> {
    Seq::new(items.len(), |i: int| state_schema(items[i]))
}

/// Reads the live value of a capability.
pub fn decode_state(json: &Value) -> (decoded: Result<CapabilityState, String>)
    ensures
        match decoded {
            Ok(d) => state_schema(json@) == Ok::<StateModel, Seq<char>>(d@),
            Err(reason) => state_schema(json@) == Err::<StateModel, Seq<char>>(reason@),
        },
{
    let fields = as_fields(json, "capabilities")?;
    let capability_type = text_field(fields, "type")?;
    let instance = text_field(fields, "instance")?;
    let state = object_field(fields, "state")?;
    let value = clone_value(required_field(state, "value")?);
    Ok(CapabilityState { capability_type, instance, value })
}

/// Reads the live values of the capabilities of a device.
pub fn decode_states(items: &Vec<Value>) -> (decoded: Result<Vec<CapabilityState>, String>)
    ensures
        match decoded {
            Ok(list) => collected(state_results(models(items@))) == Ok::<
                Seq<StateModel>,
                Seq<char>,
            >(models(list@)),
            Err(reason) => collected(state_results(models(items@))) == Err::<
                Seq<StateModel>,
                Seq<char>,
            >(reason@),
        },
{
    let ghost results = state_results(models(items@));
    let mut list: Vec<CapabilityState> = Vec::new();
    let mut i: usize = 0;
    assert(models(list@) =~= Seq::<StateModel>::empty());
    while i < items.len()
        invariant
            i <= items.len(),
            results == state_results(models(items@)),
            collected(results.take(i as int)) == Ok::<Seq<StateModel>, Seq<char>>(models(list@)),
        decreases items.len() - i,
    {
        assert(results.take(i + 1).drop_last() == results.take(i as int));
        assert(results.take(i + 1).last() == state_schema(items@[i as int]@));
        match decode_state(&items[i]) {
            Err(reason) => {
                proof {
                    lemma_collected_stays_failed(results, i + 1);
                }
                return Err(reason);
            },
            Ok(item) => {
                let ghost before = models(list@);
                list.push(item);
                assert(models(list@) =~= before.push(item@));
            },
        }
        i = i + 1;
    }
    assert(results.take(i as int) == results);
    Ok(list)
}

/// The envelope of an answer to a posted call, read from its JSON form up to
/// the payload: `requestId` and `msg` must be texts, `code` a status code,
/// and `payload` an object, whose fields are handed on.
pub open spec fn envelope_schema(json: ValueModel) -> Result<ResponseModel<Fields>, Seq<char>> {
    match fields_of(json, "response"@) {
        Err(reason) => Err(reason),
        Ok(fields) => match text_of(fields, "requestId"@) {
            Err(reason) => Err(reason),
            Ok(request_id) => match code_of(fields, "code"@) {
                Err(reason) => Err(reason),
                Ok(code) => match text_of(fields, "msg"@) {
                    Err(reason) => Err(reason),
                    Ok(msg) => match object_of(fields, "payload"@) {
                        Err(reason) => Err(reason),
                        Ok(payload) => Ok(ResponseModel { request_id, code, msg, payload }),
                    },
                },
            },
        },
    }
}

/// The state of a device, read from the fields of a payload: `capabilities`
/// must be an array of live values, and `device` and `sku` texts.
pub open spec fn device_state_schema(payload: Fields) -> Result<DeviceStateModel, Seq<char>> {
    match array_of(payload, "capabilities"@) {
        Err(reason) => Err(reason),
        Ok(items) => match collected(state_results(items)) {
            Err(reason) => Err(reason),
            Ok(capabilities) => match text_of(payload, "device"@) {
                Err(reason) => Err(reason),
                Ok(device) => match text_of(payload, "sku"@) {
                    Err(reason) => Err(reason),
                    Ok(sku) => Ok(DeviceStateModel { capabilities, device, sku }),
                },
            },
        },
    }
}

/// The answer to a state call, read from its JSON form.
pub open spec fn state_response_schema(json: ValueModel) -> Result<
    ResponseModel<DeviceStateModel>,
    Seq<char>,
> {
    match envelope_schema(json) {
        Err(reason) => Err(reason),
        Ok(envelope) => match device_state_schema(envelope.payload) {
            Err(reason) => Err(reason),
            Ok(payload) => Ok(
                ResponseModel {
                    request_id: envelope.request_id,
                    code: envelope.code,
                    msg: envelope.msg,
                    payload,
                },
            ),
        },
    }
}

/// Reads the answer to a state call.
pub fn decode_state_response(json: &Value) -> (decoded: Result<
    ResponseEnvelope<DeviceState>,
    String,
>)
    ensures
        match decoded {
            Ok(d) => state_response_schema(json@) == Ok::<
                ResponseModel<DeviceStateModel>,
                Seq<char>,
            >(d@),
            Err(reason) => state_response_schema(json@) == Err::<
                ResponseModel<DeviceStateModel>,
                Seq<char>,
            >(reason@),
        },
{
    let fields = as_fields(json, "response")?;
    let request_id = text_field(fields, "requestId")?;
    let code = code_field(fields, "code")?;
    let msg = text_field(fields, "msg")?;
    let payload = object_field(fields, "payload")?;
    let items = array_field(payload, "capabilities")?;
    let capabilities = decode_states(items)?;
    let device = text_field(payload, "device")?;
    let sku = text_field(payload, "sku")?;
    Ok(
        ResponseEnvelope {
            request_id,
            code,
            msg,
            payload: DeviceState { capabilities, device, sku },
        },
    )
}

/// The identifier of a scene, read from its JSON form: a whole number, or an
/// object with the whole numbers `paramId` and `id`.
pub open spec fn scene_value_schema(json: ValueModel) -> Result<SceneValue, Seq<char>> {
    match json {
        ValueModel::Integer(n) => Ok(SceneValue::Simple(n)),
        ValueModel::Object(fields) => match integer_of(fields, "paramId"@) {
            Err(reason) => Err(reason),
            Ok(param_id) => match integer_of(fields, "id"@) {
                Err(reason) => Err(reason),
                Ok(id) => Ok(SceneValue::Keyed { param_id, id }),
            },
        },
        _ => Err(mistyped("value"@)),
    }
}

/// Reads the identifier of a scene.
pub fn decode_scene_value(json: &Value) -> (decoded: Result<SceneValue, String>)
    ensures
        match decoded {
            Ok(d) => scene_value_schema(json@) == Ok::<SceneValue, Seq<char>>(d),
            Err(reason) => scene_value_schema(json@) == Err::<SceneValue, Seq<char>>(reason@),
        },
{
    proof {
        lemma_view_of_structured(*json);
    }
    match json {
        Value::Integer(n) => Ok(SceneValue::Simple(*n)),
        Value::Object(fields) => {
            let param_id = integer_field(fields, "paramId")?;
            let id = integer_field(fields, "id")?;
            Ok(SceneValue::Keyed { param_id, id })
        },
        _ => Err(mistyped_reason("value")),
    }
}

/// A scene option, read from its JSON form: `name` must be a text and `value`
/// the identifier of a scene.
pub open spec fn scene_option_schema(json: ValueModel) -> Result<SceneOptionModel, Seq<char>> {
    match fields_of(json, "options"@) {
        Err(reason) => Err(reason),
        Ok(fields) => match text_of(fields, "name"@) {
            Err(reason) => Err(reason),
            Ok(name) => match required(fields, "value"@) {
                Err(reason) => Err(reason),
                Ok(raw) => match scene_value_schema(raw) {
                    Err(reason) => Err(reason),
                    Ok(value) => Ok(SceneOptionModel { name, value }),
                },
            },
        },
    }
}

/// The options of a scene capability, read one by one.
pub open spec fn scene_option_results(items: Seq<ValueModel>) -> Seq<
    Result<SceneOptionModel, Seq<char>>,
> {
    Seq::new(items.len(), |i: int| scene_option_schema(items[i]))
}

/// Reads a scene option.
pub fn decode_scene_option(json: &Value) -> (decoded: Result<SceneOption, String>)
    ensures
        match decoded {
            Ok(d) => scene_option_schema(json@) == Ok::<SceneOptionModel, Seq<char>>(d@),
            Err(reason) => scene_option_schema(json@) == Err::<SceneOptionModel, Seq<char>>(
                reason@,
            ),
        },
{
    let fields = as_fields(json, "options")?;
    let name = text_field(fields, "name")?;
    let value = decode_scene_value(required_field(fields, "value")?)?;
    Ok(SceneOption { name, value })
}

/// Reads the options of a scene capability.
pub fn decode_scene_options(items: &Vec<Value>) -> (decoded: Result<Vec<SceneOption>, String>)
    ensures
        match decoded {
            Ok(list) => collected(scene_option_results(models(items@))) == Ok::<
                Seq<SceneOptionModel>,
                Seq<char>,
            >(models(list@)),
            Err(reason) => collected(scene_option_results(models(items@))) == Err::<
                Seq<SceneOptionModel>,
                Seq<char>,
            >(reason@),
        },
{
    let ghost results = scene_option_results(models(items@));
    let mut list: Vec<SceneOption> = Vec::new();
    let mut i: usize = 0;
    assert(models(list@) =~= Seq::<SceneOptionModel>::empty());
    while i < items.len()
        invariant
            i <= items.len(),
            results == scene_option_results(models(items@)),
            collected(results.take(i as int)) == Ok::<Seq<SceneOptionModel>, Seq<char>>(
                models(list@),
            ),
        decreases items.len() - i,
    {
        assert(results.take(i + 1).drop_last() == results.take(i as int));
        assert(results.take(i + 1).last() == scene_option_schema(items@[i as int]@));
        match decode_scene_option(&items[i]) {
            Err(reason) => {
                proof {
                    lemma_collected_stays_failed(results, i + 1);
                }
                return Err(reason);
            },
            Ok(item) => {
                let ghost before = models(list@);
                list.push(item);
                assert(models(list@) =~= before.push(item@));
            },
        }
        i = i + 1;
    }
    assert(results.take(i as int) == results);
    Ok(list)
}

/// A scene capability, read from its JSON form: `type` and `instance` must be
/// texts, and `parameters` an object with the text `dataType` and the array
/// `options`.
pub open spec fn scene_capability_schema(json: ValueModel) -> Result<
    SceneCapabilityModel,
    Seq<char>,
> {
    match fields_of(json, "capabilities"@) {
        Err(reason) => Err(reason),
        Ok(fields) => match text_of(fields, "type"@) {
            Err(reason) => Err(reason),
            Ok(kind) => match text_of(fields, "instance"@) {
                Err(reason) => Err(reason),
                Ok(instance) => match object_of(fields, "parameters"@) {
                    Err(reason) => Err(reason),
                    Ok(parameters) => match text_of(parameters, "dataType"@) {
                        Err(reason) => Err(reason),
                        Ok(data_type) => match array_of(parameters, "options"@) {
                            Err(reason) => Err(reason),
                            Ok(items) => match collected(scene_option_results(items)) {
                                Err(reason) => Err(reason),
                                Ok(options) => Ok(
                                    SceneCapabilityModel { kind, instance, data_type, options },
                                ),
                            },
                        },
                    },
                },
            },
        },
    }
}

/// The capabilities of a scenes payload, read one by one.
pub open spec fn scene_capability_results(items: Seq<ValueModel>) -> Seq<
    Result<SceneCapabilityModel, Seq<char>>,
> {
    Seq::new(items.len(), |i: int| scene_capability_schema(items[i]))
}

/// Reads a scene capability.
pub fn decode_scene_capability(json: &Value) -> (decoded: Result<DynamicSceneCapability, String>)
    ensures
        match decoded {
            Ok(d) => scene_capability_schema(json@) == Ok::<SceneCapabilityModel, Seq<char>>(d@),
            Err(reason) => scene_capability_schema(json@) == Err::<
                SceneCapabilityModel,
                Seq<char>,
            >(reason@),
        },
{
    let fields = as_fields(json, "capabilities")?;
    let capability_type = text_field(fields, "type")?;
    let instance = text_field(fields, "instance")?;
    let parameters = object_field(fields, "parameters")?;
    let data_type = text_field(parameters, "dataType")?;
    let items = array_field(parameters, "options")?;
    let options = decode_scene_options(items)?;
    Ok(
        DynamicSceneCapability {
            capability_type,
            instance,
            parameters: DynamicSceneParameters { data_type, options },
        },
    )
}

/// Reads the capabilities of a scenes payload.
pub fn decode_scene_capabilities(items: &Vec<Value>) -> (decoded: Result<
    Vec<DynamicSceneCapability>,
    String,
>)
    ensures
        match decoded {
            Ok(list) => collected(scene_capability_results(models(items@))) == Ok::<
                Seq<SceneCapabilityModel>,
                Seq<char>,
            >(models(list@)),
            Err(reason) => collected(scene_capability_results(models(items@))) == Err::<
                Seq<SceneCapabilityModel>,
                Seq<char>,
            >(reason@),
        },
{
    let ghost results = scene_capability_results(models(items@));
    let mut list: Vec<DynamicSceneCapability> = Vec::new();
    let mut i: usize = 0;
    assert(models(list@) =~= Seq::<SceneCapabilityModel>::empty());
    while i < items.len()
        invariant
            i <= items.len(),
            results == scene_capability_results(models(items@)),
            collected(results.take(i as int)) == Ok::<Seq<SceneCapabilityModel>, Seq<char>>(
                models(list@),
            ),
        decreases items.len() - i,
    {
        assert(results.take(i + 1).drop_last() == results.take(i as int));
        assert(results.take(i + 1).last() == scene_capability_schema(items@[i as int]@));
        match decode_scene_capability(&items[i]) {
            Err(reason) => {
                proof {
                    lemma_collected_stays_failed(results, i + 1);
                }
                return Err(reason);
            },
            Ok(item) => {
                let ghost before = models(list@);
                list.push(item);
                assert(models(list@) =~= before.push(item@));
            },
        }
        i = i + 1;
    }
    assert(results.take(i as int) == results);
    Ok(list)
}

/// The payload of a scenes answer, read from its fields: `sku` and `device`
/// must be texts, and `capabilities` an array of scene capabilities.
pub open spec fn scene_payload_schema(payload: Fields) -> Result<ScenePayloadModel, Seq<char>> {
    match text_of(payload, "sku"@) {
        Err(reason) => Err(reason),
        Ok(sku) => match text_of(payload, "device"@) {
            Err(reason) => Err(reason),
            Ok(device) => match array_of(payload, "capabilities"@) {
                Err(reason) => Err(reason),
                Ok(items) => match collected(scene_capability_results(items)) {
                    Err(reason) => Err(reason),
                    Ok(capabilities) => Ok(ScenePayloadModel { sku, device, capabilities }),
                },
            },
        },
    }
}

/// The answer to a scenes call, read from its JSON form.
pub open spec fn scene_response_schema(json: ValueModel) -> Result<
    ResponseModel<ScenePayloadModel>,
    Seq<char>,
> {
    match envelope_schema(json) {
        Err(reason) => Err(reason),
        Ok(envelope) => match scene_payload_schema(envelope.payload) {
            Err(reason) => Err(reason),
            Ok(payload) => Ok(
                ResponseModel {
                    request_id: envelope.request_id,
                    code: envelope.code,
                    msg: envelope.msg,
                    payload,
                },
            ),
        },
    }
}

/// Reads the answer to a scenes call.
pub fn decode_scene_response(json: &Value) -> (decoded: Result<
    ResponseEnvelope<DynamicScenePayload>,
    String,
>)
    ensures
        match decoded {
            Ok(d) => scene_response_schema(json@) == Ok::<
                ResponseModel<ScenePayloadModel>,
                Seq<char>,
            >(d@),
            Err(reason) => scene_response_schema(json@) == Err::<
                ResponseModel<ScenePayloadModel>,
                Seq<char>,
            >(reason@),
        },
{
    let fields = as_fields(json, "response")?;
    let request_id = text_field(fields, "requestId")?;
    let code = code_field(fields, "code")?;
    let msg = text_field(fields, "msg")?;
    let payload = object_field(fields, "payload")?;
    let sku = text_field(payload, "sku")?;
    let device = text_field(payload, "device")?;
    let items = array_field(payload, "capabilities")?;
    let capabilities = decode_scene_capabilities(items)?;
    Ok(
        ResponseEnvelope {
            request_id,
            code,
            msg,
            payload: DynamicScenePayload { sku, device, capabilities },
        },
    )
}

/// A field of another name, wherever it is put among the fields of an
/// object, does not change what is found under a name.
pub proof fn lemma_lookup_ignores_other_field(
    fields: Fields,
    at: int,
    extra: (Seq<char>, ValueModel),
    name: Seq<char>,
)
    requires
        0 <= at <= fields.len(),
        extra.0 != name,
    ensures
        lookup(fields.insert(at, extra), name) == lookup(fields, name),
    decreases at,
{
    let longer = fields.insert(at, extra);
    if at == 0 {
        assert(longer.skip(1) =~= fields);
    } else {
        assert(longer[0] == fields[0]);
        assert(longer.skip(1) =~= fields.skip(1).insert(at - 1, extra));
        lemma_lookup_ignores_other_field(fields.skip(1), at - 1, extra, name);
    }
}

/// A field that the schema does not name is ignored in the answer to a
/// list-devices call.
pub proof fn lemma_device_list_ignores_unknown_field(
    fields: Fields,
    at: int,
    extra: (Seq<char>, ValueModel),
)
    requires
        0 <= at <= fields.len(),
        extra.0 != "code"@,
        extra.0 != "message"@,
        extra.0 != "data"@,
    ensures
        device_list_schema(ValueModel::Object(fields.insert(at, extra))) == device_list_schema(
            ValueModel::Object(fields),
        ),
{
    lemma_lookup_ignores_other_field(fields, at, extra, "code"@);
    lemma_lookup_ignores_other_field(fields, at, extra, "message"@);
    lemma_lookup_ignores_other_field(fields, at, extra, "data"@);
}

/// A field that the schema does not name is ignored in a device.
pub proof fn lemma_device_ignores_unknown_field(
    fields: Fields,
    at: int,
    extra: (Seq<char>, ValueModel),
)
    requires
        0 <= at <= fields.len(),
        extra.0 != "sku"@,
        extra.0 != "device"@,
        extra.0 != "type"@,
        extra.0 != "deviceName"@,
        extra.0 != "capabilities"@,
    ensures
        device_schema(ValueModel::Object(fields.insert(at, extra))) == device_schema(
            ValueModel::Object(fields),
        ),
{
    lemma_lookup_ignores_other_field(fields, at, extra, "sku"@);
    lemma_lookup_ignores_other_field(fields, at, extra, "device"@);
    lemma_lookup_ignores_other_field(fields, at, extra, "type"@);
    lemma_lookup_ignores_other_field(fields, at, extra, "deviceName"@);
    lemma_lookup_ignores_other_field(fields, at, extra, "capabilities"@);
}

/// A field that the schema does not name is ignored in a declared capability.
pub proof fn lemma_capability_ignores_unknown_field(
    fields: Fields,
    at: int,
    extra: (Seq<char>, ValueModel),
)
    requires
        0 <= at <= fields.len(),
        extra.0 != "type"@,
        extra.0 != "instance"@,
        extra.0 != "parameters"@,
    ensures
        capability_schema(ValueModel::Object(fields.insert(at, extra))) == capability_schema(
            ValueModel::Object(fields),
        ),
{
    lemma_lookup_ignores_other_field(fields, at, extra, "type"@);
    lemma_lookup_ignores_other_field(fields, at, extra, "instance"@);
    lemma_lookup_ignores_other_field(fields, at, extra, "parameters"@);
}

/// A field that the schema does not name is ignored in the envelope of an
/// answer.
pub proof fn lemma_envelope_ignores_unknown_field(
    fields: Fields,
    at: int,
    extra: (Seq<char>, ValueModel),
)
    requires
        0 <= at <= fields.len(),
        extra.0 != "requestId"@,
        extra.0 != "code"@,
        extra.0 != "msg"@,
        extra.0 != "payload"@,
    ensures
        envelope_schema(ValueModel::Object(fields.insert(at, extra))) == envelope_schema(
            ValueModel::Object(fields),
        ),
{
    lemma_lookup_ignores_other_field(fields, at, extra, "requestId"@);
    lemma_lookup_ignores_other_field(fields, at, extra, "code"@);
    lemma_lookup_ignores_other_field(fields, at, extra, "msg"@);
    lemma_lookup_ignores_other_field(fields, at, extra, "payload"@);
}

/// A field that the schema does not name is ignored in the state of a device.
pub proof fn lemma_device_state_ignores_unknown_field(
    fields: Fields,
    at: int,
    extra: (Seq<char>, ValueModel),
)
    requires
        0 <= at <= fields.len(),
        extra.0 != "capabilities"@,
        extra.0 != "device"@,
        extra.0 != "sku"@,
    ensures
        device_state_schema(fields.insert(at, extra)) == device_state_schema(fields),
{
    lemma_lookup_ignores_other_field(fields, at, extra, "capabilities"@);
    lemma_lookup_ignores_other_field(fields, at, extra, "device"@);
    lemma_lookup_ignores_other_field(fields, at, extra, "sku"@);
}

/// A field that the schema does not name is ignored in the live value of a
/// capability.
pub proof fn lemma_state_ignores_unknown_field(
    fields: Fields,
    at: int,
    extra: (Seq<char>, ValueModel),
)
    requires
        0 <= at <= fields.len(),
        extra.0 != "type"@,
        extra.0 != "instance"@,
        extra.0 != "state"@,
    ensures
        state_schema(ValueModel::Object(fields.insert(at, extra))) == state_schema(
            ValueModel::Object(fields),
        ),
{
    lemma_lookup_ignores_other_field(fields, at, extra, "type"@);
    lemma_lookup_ignores_other_field(fields, at, extra, "instance"@);
    lemma_lookup_ignores_other_field(fields, at, extra, "state"@);
}

/// A field that the schema does not name is ignored in the payload of a scenes
/// answer.
pub proof fn lemma_scene_payload_ignores_unknown_field(
    fields: Fields,
    at: int,
    extra: (Seq<char>, ValueModel),
)
    requires
        0 <= at <= fields.len(),
        extra.0 != "sku"@,
        extra.0 != "device"@,
        extra.0 != "capabilities"@,
    ensures
        scene_payload_schema(fields.insert(at, extra)) == scene_payload_schema(fields),
{
    lemma_lookup_ignores_other_field(fields, at, extra, "sku"@);
    lemma_lookup_ignores_other_field(fields, at, extra, "device"@);
    lemma_lookup_ignores_other_field(fields, at, extra, "capabilities"@);
}

/// A field that the schema does not name is ignored in a scene capability.
pub proof fn lemma_scene_capability_ignores_unknown_field(
    fields: Fields,
    at: int,
    extra: (Seq<char>, ValueModel),
)
    requires
        0 <= at <= fields.len(),
        extra.0 != "type"@,
        extra.0 != "instance"@,
        extra.0 != "parameters"@,
    ensures
        scene_capability_schema(ValueModel::Object(fields.insert(at, extra)))
            == scene_capability_schema(ValueModel::Object(fields)),
{
    lemma_lookup_ignores_other_field(fields, at, extra, "type"@);
    lemma_lookup_ignores_other_field(fields, at, extra, "instance"@);
    lemma_lookup_ignores_other_field(fields, at, extra, "parameters"@);
}

/// A field that the schema does not name is ignored in a scene option.
pub proof fn lemma_scene_option_ignores_unknown_field(
    fields: Fields,
    at: int,
    extra: (Seq<char>, ValueModel),
)
    requires
        0 <= at <= fields.len(),
        extra.0 != "name"@,
        extra.0 != "value"@,
    ensures
        scene_option_schema(ValueModel::Object(fields.insert(at, extra))) == scene_option_schema(
            ValueModel::Object(fields),
        ),
{
    lemma_lookup_ignores_other_field(fields, at, extra, "name"@);
    lemma_lookup_ignores_other_field(fields, at, extra, "value"@);
}

/// The name of a device and the parameters of a capability are absent
/// exactly where the field is missing or null, and neither case is an error.
pub proof fn lemma_absent_fields(fields: Fields)
    ensures
        lookup(fields, "deviceName"@) is None || lookup(fields, "deviceName"@) == Some(
            ValueModel::Null,
        ) <==> optional_text_of(fields, "deviceName"@) == Ok::<Option<Seq<char>>, Seq<char>>(
            None,
        ),
        lookup(fields, "parameters"@) is None || lookup(fields, "parameters"@) == Some(
            ValueModel::Null,
        ) <==> optional(fields, "parameters"@) is None,
        device_schema(ValueModel::Object(fields)) matches Ok(device) ==> device.device_name
            == optional_text_of(fields, "deviceName"@)->Ok_0,
        capability_schema(ValueModel::Object(fields)) matches Ok(capability)
            ==> capability.parameters == optional(fields, "parameters"@),
{
}

} // verus!
