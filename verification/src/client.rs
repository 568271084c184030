//! The device API client: for each remote operation, the request to send and
//! the reading of what came back.
//!
//! Every operation is one exchange. A function whose name ends in `_request`
//! says what to send, or why nothing can be sent; the function named after
//! the operation takes the outcome of the exchange and gives the operation's
//! result. Nothing is retried and nothing is cached.

use vstd::prelude::*;
use vstd::string::{StringExecFns, StringSliceAdditionalSpecFns};
use vstd::utf8::encode_utf8;

use crate::correlator::{generate_request_id, is_request_id};
use crate::device::{DeviceModel, DeviceState, DeviceStateModel, GoveeDevice};
use crate::error::{ApiError, ErrorModel, Operation, SceneKind};
use crate::model::{models, optional_model};
use crate::normalize::{
    bare_type_label, extract_scene_options, normalize_devices, normalize_temperature,
    normalized_devices, normalized_state, scene_options,
};
use crate::scene::{SceneOption, SceneOptionModel, ScenePayloadModel};
use crate::schema::{
    decode_device_list, decode_scene_response, decode_state_response, device_list_schema,
    scene_response_schema, state_response_schema,
};
use crate::value::{Value, ValueModel};
use crate::wire::{
    Body, BodyModel, CapabilityControl, ControlPayload, DeviceListModel, DevicePayload, endpoint,
    endpoint_url, Exchange, ExchangeModel, HttpRequest, Method, RequestEnvelope, RequestModel,
    ResponseModel,
};

verus! {

/// Whether a byte may stand in a header value: any byte but the control
/// characters, of which only the tab may.
pub open spec fn header_byte(b: u8) -> bool {
    (b >= 32 && b != 127) || b == 9
}

/// Whether every byte of a text may stand in a header value.
pub open spec fn header_safe(bytes: Seq<u8>) -> bool {
    forall|i: int| 0 <= i < bytes.len() ==> header_byte(#[trigger] bytes[i])
}

/// `reqwest::header::HeaderValue::from_str`, asked only whether it accepts.
///
/// It accepts a text exactly where each byte of its UTF-8 form is 32 or
/// above and not 127, or is the tab.
#[verifier::external_body]
fn header_value_accepts(value: &str) -> (accepted: bool)
    ensures
        accepted == header_safe(value.spec_bytes()),
{
    reqwest::header::HeaderValue::from_str(value).is_ok()
}

/// The key to send, or why there is none: a key that is absent or empty is
/// missing, and one that cannot stand in a header is malformed.
pub open spec fn usable_key(api_key: Option<Seq<char>>) -> Result<Seq<char>, ErrorModel> {
    match api_key {
        None => Err(ErrorModel::MissingApiKey),
        Some(key) => if key.len() == 0 {
            Err(ErrorModel::MissingApiKey)
        } else if !header_safe(encode_utf8(key)) {
            Err(ErrorModel::InvalidApiKeyFormat)
        } else {
            Ok(key)
        },
    }
}

/// Whether a character of a key in ASCII may stand in a header value: the
/// tab and the characters from the space to the tilde.
pub open spec fn header_char(c: char) -> bool {
    c == '\t' || (' ' <= c <= '~')
}

/// A key in ASCII is usable exactly where it is not empty and holds nothing
/// but tabs and the characters from the space to the tilde.
pub proof fn lemma_ascii_key(key: Seq<char>)
    requires
        vstd::utf8::is_ascii_chars(key),
    ensures
        usable_key(Some(key)) is Ok <==> key.len() > 0 && forall|i: int|
            0 <= i < key.len() ==> header_char(#[trigger] key[i]),
        usable_key(Some(key)) is Ok ==> usable_key(Some(key)) == Ok::<Seq<char>, ErrorModel>(key),
{
    vstd::utf8::is_ascii_chars_encode_utf8(key);
    let bytes = encode_utf8(key);
    if header_safe(bytes) {
        assert forall|i: int| 0 <= i < key.len() implies header_char(#[trigger] key[i]) by {
            assert(header_byte(bytes[i]));
            assert(key[i] as u8 == bytes[i]);
        }
    }
    if forall|i: int| 0 <= i < key.len() ==> header_char(#[trigger] key[i]) {
        assert forall|i: int| 0 <= i < bytes.len() implies header_byte(#[trigger] bytes[i]) by {
            assert(header_char(key[i]));
            assert(key[i] as u8 == bytes[i]);
        }
    }
}

/// Checks the configured API key before anything is sent.
pub fn checked_api_key(api_key: Option<String>) -> (checked: Result<String, ApiError>)
    ensures
        match checked {
            Ok(key) => usable_key(optional_model(api_key)) == Ok::<Seq<char>, ErrorModel>(key@),
            Err(e) => usable_key(optional_model(api_key)) == Err::<Seq<char>, ErrorModel>(e@),
        },
{
    match api_key {
        None => Err(ApiError::MissingApiKey),
        Some(key) => {
            if key.as_str().is_empty() {
                Err(ApiError::MissingApiKey)
            } else if !header_value_accepts(key.as_str()) {
                Err(ApiError::InvalidApiKeyFormat)
            } else {
                Ok(key)
            }
        },
    }
}

/// The method by which an operation is called.
pub open spec fn method_of(operation: Operation) -> Method {
    match operation {
        Operation::ListDevices => Method::Get,
        _ => Method::Post,
    }
}

/// The call of an operation with a key and a body.
pub open spec fn request_for(operation: Operation, api_key: Seq<char>, body: BodyModel)
    -> RequestModel {
    RequestModel { method: method_of(operation), url: endpoint(operation), api_key, body }
}

/// The request identifier that a body carries; the empty text where it
/// carries none.
pub open spec fn request_id_of(body: BodyModel) -> Seq<char> {
    match body {
        BodyModel::Empty => Seq::empty(),
        BodyModel::Device { request_id, .. } => request_id,
        BodyModel::Control { request_id, .. } => request_id,
    }
}

/// Puts a call together.
fn build_request(operation: Operation, api_key: String, body: Body) -> (request: HttpRequest)
    ensures
        request@ == request_for(operation, api_key@, body@),
{
    let method = match operation {
        Operation::ListDevices => Method::Get,
        _ => Method::Post,
    };
    HttpRequest { method, url: String::from_str(endpoint_url(operation)), api_key, body }
}

/// Whether an HTTP status is a success: 200 to 299.
pub open spec fn is_success(status: u16) -> bool {
    200 <= status < 300
}

/// The parsed body of an exchange, or the error that the exchange stands
/// for: a call given up is cancelled, a failed transport is a network
/// failure, a status outside 200 to 299 is a rejection that carries the
/// body's text, and a body that is no JSON is a decode failure.
pub open spec fn accepted(operation: Operation, exchange: ExchangeModel) -> Result<
    ValueModel,
    ErrorModel,
> {
    match exchange {
        ExchangeModel::Cancelled => Err(ErrorModel::Cancelled),
        ExchangeModel::Failed { reason } => Err(ErrorModel::NetworkFailure { operation, reason }),
        ExchangeModel::Answered { status, text, json } => if !is_success(status) {
            Err(ErrorModel::ApiRejected { status, body: text })
        } else {
            match json {
                Ok(body) => Ok(body),
                Err(reason) => Err(ErrorModel::DecodeFailure { reason }),
            }
        },
    }
}

/// Reads the outcome of an exchange: the parsed body, or the error.
pub fn accept(operation: Operation, exchange: Exchange) -> (answer: Result<Value, ApiError>)
    ensures
        match answer {
            Ok(body) => accepted(operation, exchange@) == Ok::<ValueModel, ErrorModel>(body@),
            Err(e) => accepted(operation, exchange@) == Err::<ValueModel, ErrorModel>(e@),
        },
{
    match exchange {
        Exchange::Cancelled => Err(ApiError::Cancelled),
        Exchange::Failed { reason } => Err(ApiError::NetworkFailure { operation, reason }),
        Exchange::Answered { status, text, json } => {
            if !(200 <= status && status < 300) {
                Err(ApiError::ApiRejected { status, body: text })
            } else {
                match json {
                    Ok(body) => Ok(body),
                    Err(reason) => Err(ApiError::DecodeFailure { reason }),
                }
            }
        },
    }
}

/// The call that lists the devices of the account.
pub fn get_devices_request(api_key: Option<String>) -> (request: Result<HttpRequest, ApiError>)
    ensures
        match request {
            Ok(r) => {
                &&& usable_key(optional_model(api_key)) == Ok::<Seq<char>, ErrorModel>(r@.api_key)
                &&& r@ == request_for(Operation::ListDevices, r@.api_key, BodyModel::Empty)
            },
            Err(e) => usable_key(optional_model(api_key)) == Err::<Seq<char>, ErrorModel>(e@),
        },
{
    match checked_api_key(api_key) {
        Ok(key) => Ok(build_request(Operation::ListDevices, key, Body::Empty)),
        Err(e) => Err(e),
    }
}

/// What a decoded answer to a list-devices call gives: the devices with
/// their type labels stripped of the vendor's prefix, where the code inside
/// the answer is 200, and a remote error where it is anything else.
pub open spec fn devices_result(response: DeviceListModel) -> Result<
    Seq<DeviceModel>,
    ErrorModel,
> {
    if response.code != 200 {
        Err(ErrorModel::RemoteError { code: response.code, message: response.message })
    } else {
        Ok(normalized_devices(response.data))
    }
}

/// What a list-devices exchange gives: what the answer gives, where the
/// exchange was accepted and the body matches the wire schema.
pub open spec fn devices_outcome(exchange: ExchangeModel) -> Result<Seq<DeviceModel>, ErrorModel> {
    match accepted(Operation::ListDevices, exchange) {
        Err(e) => Err(e),
        Ok(json) => match device_list_schema(json) {
            Err(reason) => Err(ErrorModel::DecodeFailure { reason }),
            Ok(response) => devices_result(response),
        },
    }
}

/// Lists the devices of the account, from the outcome of the exchange.
pub fn get_devices(exchange: Exchange) -> (result: Result<Vec<GoveeDevice>, ApiError>)
    ensures
        match result {
            Ok(devices) => devices_outcome(exchange@) == Ok::<Seq<DeviceModel>, ErrorModel>(
                models(devices@),
            ),
            Err(e) => devices_outcome(exchange@) == Err::<Seq<DeviceModel>, ErrorModel>(e@),
        },
{
    let json = accept(Operation::ListDevices, exchange)?;
    match decode_device_list(&json) {
        Err(reason) => Err(ApiError::DecodeFailure { reason }),
        Ok(response) => {
            if response.code != 200 {
                Err(ApiError::RemoteError { code: response.code, message: response.message })
            } else {
                let mut devices = response.data;
                normalize_devices(&mut devices);
                Ok(devices)
            }
        },
    }
}

/// The call of an operation that is about one device, with the request
/// identifier given.
pub fn device_request(
    operation: Operation,
    api_key: Option<String>,
    device: String,
    sku: String,
    request_id: String,
) -> (request: Result<HttpRequest, ApiError>)
    ensures
        match request {
            Ok(r) => {
                &&& usable_key(optional_model(api_key)) == Ok::<Seq<char>, ErrorModel>(r@.api_key)
                &&& r@ == request_for(
                    operation,
                    r@.api_key,
                    BodyModel::Device { request_id: request_id@, device: device@, sku: sku@ },
                )
            },
            Err(e) => usable_key(optional_model(api_key)) == Err::<Seq<char>, ErrorModel>(e@),
        },
{
    match checked_api_key(api_key) {
        Ok(key) => Ok(
            build_request(
                operation,
                key,
                Body::Device(
                    RequestEnvelope { request_id, payload: DevicePayload { device, sku } },
                ),
            ),
        ),
        Err(e) => Err(e),
    }
}

/// The call of an operation that is about one device, under a fresh request
/// identifier.
fn fresh_device_request(
    operation: Operation,
    api_key: Option<String>,
    device: String,
    sku: String,
) -> (request: Result<HttpRequest, ApiError>)
    ensures
        match request {
            Ok(r) => {
                &&& usable_key(optional_model(api_key)) == Ok::<Seq<char>, ErrorModel>(r@.api_key)
                &&& is_request_id(request_id_of(r@.body))
                &&& r@ == request_for(
                    operation,
                    r@.api_key,
                    BodyModel::Device {
                        request_id: request_id_of(r@.body),
                        device: device@,
                        sku: sku@,
                    },
                )
            },
            Err(e) => usable_key(optional_model(api_key)) == Err::<Seq<char>, ErrorModel>(e@),
        },
{
    match checked_api_key(api_key) {
        Ok(key) => device_request(operation, Some(key), device, sku, generate_request_id()),
        Err(e) => Err(e),
    }
}

/// The call that asks for the state of a device, under a fresh request
/// identifier.
pub fn get_device_state_request(api_key: Option<String>, device: String, sku: String) -> (request:
    Result<HttpRequest, ApiError>)
    ensures
        match request {
            Ok(r) => {
                &&& usable_key(optional_model(api_key)) == Ok::<Seq<char>, ErrorModel>(r@.api_key)
                &&& is_request_id(request_id_of(r@.body))
                &&& r@ == request_for(
                    Operation::GetState,
                    r@.api_key,
                    BodyModel::Device {
                        request_id: request_id_of(r@.body),
                        device: device@,
                        sku: sku@,
                    },
                )
            },
            Err(e) => usable_key(optional_model(api_key)) == Err::<Seq<char>, ErrorModel>(e@),
        },
{
    fresh_device_request(Operation::GetState, api_key, device, sku)
}

/// What a decoded answer to a state call gives: the state with its
/// temperature reading in degrees Celsius, where the code inside the answer
/// is 200, and a remote error where it is anything else.
pub open spec fn state_result(response: ResponseModel<DeviceStateModel>) -> Result<
    DeviceStateModel,
    ErrorModel,
> {
    if response.code != 200 {
        Err(ErrorModel::RemoteError { code: response.code, message: response.msg })
    } else {
        Ok(normalized_state(response.payload))
    }
}

/// What a state exchange gives: what the answer gives, where the exchange was
/// accepted and the body matches the wire schema.
pub open spec fn state_outcome(exchange: ExchangeModel) -> Result<DeviceStateModel, ErrorModel> {
    match accepted(Operation::GetState, exchange) {
        Err(e) => Err(e),
        Ok(json) => match state_response_schema(json) {
            Err(reason) => Err(ErrorModel::DecodeFailure { reason }),
            Ok(response) => state_result(response),
        },
    }
}

/// Gives the state of a device, from the outcome of the exchange.
pub fn get_device_state(exchange: Exchange) -> (result: Result<DeviceState, ApiError>)
    ensures
        match result {
            Ok(state) => state_outcome(exchange@) == Ok::<DeviceStateModel, ErrorModel>(state@),
            Err(e) => state_outcome(exchange@) == Err::<DeviceStateModel, ErrorModel>(e@),
        },
{
    let json = accept(Operation::GetState, exchange)?;
    match decode_state_response(&json) {
        Err(reason) => Err(ApiError::DecodeFailure { reason }),
        Ok(response) => {
            if response.code != 200 {
                Err(ApiError::RemoteError { code: response.code, message: response.msg })
            } else {
                let mut state = response.payload;
                normalize_temperature(&mut state);
                Ok(state)
            }
        },
    }
}

/// The call that sets a capability of a device to a value, with the request
/// identifier given. The value goes out as it was handed in.
pub fn control_request(
    api_key: Option<String>,
    device: String,
    sku: String,
    capability_type: String,
    instance: String,
    value: Value,
    request_id: String,
) -> (request: Result<HttpRequest, ApiError>)
    ensures
        match request {
            Ok(r) => {
                &&& usable_key(optional_model(api_key)) == Ok::<Seq<char>, ErrorModel>(r@.api_key)
                &&& r@ == request_for(
                    Operation::SendControl,
                    r@.api_key,
                    BodyModel::Control {
                        request_id: request_id@,
                        device: device@,
                        sku: sku@,
                        kind: capability_type@,
                        instance: instance@,
                        value: value@,
                    },
                )
            },
            Err(e) => usable_key(optional_model(api_key)) == Err::<Seq<char>, ErrorModel>(e@),
        },
{
    match checked_api_key(api_key) {
        Ok(key) => Ok(
            build_request(
                Operation::SendControl,
                key,
                Body::Control(
                    RequestEnvelope {
                        request_id,
                        payload: ControlPayload {
                            device,
                            sku,
                            capability: CapabilityControl { capability_type, instance, value },
                        },
                    },
                ),
            ),
        ),
        Err(e) => Err(e),
    }
}

/// The call that sets a capability of a device to a value, under a fresh
/// request identifier.
pub fn change_capability_value_request(
    api_key: Option<String>,
    device: String,
    sku: String,
    capability_type: String,
    instance: String,
    value: Value,
) -> (request: Result<HttpRequest, ApiError>)
    ensures
        match request {
            Ok(r) => {
                &&& usable_key(optional_model(api_key)) == Ok::<Seq<char>, ErrorModel>(r@.api_key)
                &&& is_request_id(request_id_of(r@.body))
                &&& r@ == request_for(
                    Operation::SendControl,
                    r@.api_key,
                    BodyModel::Control {
                        request_id: request_id_of(r@.body),
                        device: device@,
                        sku: sku@,
                        kind: capability_type@,
                        instance: instance@,
                        value: value@,
                    },
                )
            },
            Err(e) => usable_key(optional_model(api_key)) == Err::<Seq<char>, ErrorModel>(e@),
        },
{
    match checked_api_key(api_key) {
        Ok(key) => control_request(
            Some(key),
            device,
            sku,
            capability_type,
            instance,
            value,
            generate_request_id(),
        ),
        Err(e) => Err(e),
    }
}

/// What a control exchange gives: nothing, where the HTTP status is a
/// success. The body of the answer is not read.
pub open spec fn control_outcome(exchange: ExchangeModel) -> Result<(), ErrorModel> {
    match exchange {
        ExchangeModel::Cancelled => Err(ErrorModel::Cancelled),
        ExchangeModel::Failed { reason } => Err(
            ErrorModel::NetworkFailure { operation: Operation::SendControl, reason },
        ),
        ExchangeModel::Answered { status, text, json } => if !is_success(status) {
            Err(ErrorModel::ApiRejected { status, body: text })
        } else {
            Ok(())
        },
    }
}

/// Says whether a control command went through, from the outcome of the
/// exchange.
pub fn change_capability_value(exchange: Exchange) -> (result: Result<(), ApiError>)
    ensures
        match result {
            Ok(done) => control_outcome(exchange@) == Ok::<(), ErrorModel>(()),
            Err(e) => control_outcome(exchange@) == Err::<(), ErrorModel>(e@),
        },
{
    match exchange {
        Exchange::Cancelled => Err(ApiError::Cancelled),
        Exchange::Failed { reason } => Err(
            ApiError::NetworkFailure { operation: Operation::SendControl, reason },
        ),
        Exchange::Answered { status, text, json } => {
            if !(200 <= status && status < 300) {
                Err(ApiError::ApiRejected { status, body: text })
            } else {
                Ok(())
            }
        },
    }
}

/// The instance name of the capability that holds the scenes of a kind.
pub open spec fn scene_instance(kind: SceneKind) -> Seq<char> {
    match kind {
        SceneKind::Light => "lightScene"@,
        SceneKind::Diy => "diyScene"@,
    }
}

/// The call that asks for the scenes of one kind that a device offers, under
/// a fresh request identifier.
pub fn list_scenes_request(kind: SceneKind, api_key: Option<String>, device: String, sku: String)
    -> (request: Result<HttpRequest, ApiError>)
    ensures
        match request {
            Ok(r) => {
                &&& usable_key(optional_model(api_key)) == Ok::<Seq<char>, ErrorModel>(r@.api_key)
                &&& is_request_id(request_id_of(r@.body))
                &&& r@ == request_for(
                    Operation::ListScenes(kind),
                    r@.api_key,
                    BodyModel::Device {
                        request_id: request_id_of(r@.body),
                        device: device@,
                        sku: sku@,
                    },
                )
            },
            Err(e) => usable_key(optional_model(api_key)) == Err::<Seq<char>, ErrorModel>(e@),
        },
{
    fresh_device_request(Operation::ListScenes(kind), api_key, device, sku)
}

/// What a decoded answer to a scenes call gives: the options of the
/// capability that holds the scenes of the kind, as they came, where the code
/// inside the answer is 200; a remote error where that code is anything else;
/// not found where the answer holds no such capability.
pub open spec fn scenes_result(kind: SceneKind, response: ResponseModel<ScenePayloadModel>)
    -> Result<Seq<SceneOptionModel>, ErrorModel> {
    if response.code != 200 {
        Err(ErrorModel::RemoteError { code: response.code, message: response.msg })
    } else {
        match scene_options(response.payload, scene_instance(kind)) {
            Some(options) => Ok(options),
            None => Err(ErrorModel::NotFound { kind }),
        }
    }
}

/// What a scenes exchange gives: what the answer gives, where the exchange
/// was accepted and the body matches the wire schema.
pub open spec fn scenes_outcome(kind: SceneKind, exchange: ExchangeModel) -> Result<
    Seq<SceneOptionModel>,
    ErrorModel,
> {
    match accepted(Operation::ListScenes(kind), exchange) {
        Err(e) => Err(e),
        Ok(json) => match scene_response_schema(json) {
            Err(reason) => Err(ErrorModel::DecodeFailure { reason }),
            Ok(response) => scenes_result(kind, response),
        },
    }
}

/// Lists the scenes of one kind that a device offers, from the outcome of
/// the exchange.
pub fn list_scenes(kind: SceneKind, exchange: Exchange) -> (result: Result<
    Vec<SceneOption>,
    ApiError,
>)
    ensures
        match result {
            Ok(options) => scenes_outcome(kind, exchange@) == Ok::<
                Seq<SceneOptionModel>,
                ErrorModel,
            >(models(options@)),
            Err(e) => scenes_outcome(kind, exchange@) == Err::<Seq<SceneOptionModel>, ErrorModel>(
                e@,
            ),
        },
{
    let json = accept(Operation::ListScenes(kind), exchange)?;
    match decode_scene_response(&json) {
        Err(reason) => Err(ApiError::DecodeFailure { reason }),
        Ok(response) => {
            if response.code != 200 {
                Err(ApiError::RemoteError { code: response.code, message: response.msg })
            } else {
                let instance = match kind {
                    SceneKind::Light => "lightScene",
                    SceneKind::Diy => "diyScene",
                };
                match extract_scene_options(response.payload, instance) {
                    Some(options) => Ok(options),
                    None => Err(ApiError::NotFound { kind }),
                }
            }
        },
    }
}

/// The call that asks for the light scenes of a device.
pub fn get_light_scenes_request(api_key: Option<String>, device: String, sku: String) -> (request:
    Result<HttpRequest, ApiError>)
    ensures
        match request {
            Ok(r) => {
                &&& usable_key(optional_model(api_key)) == Ok::<Seq<char>, ErrorModel>(r@.api_key)
                &&& is_request_id(request_id_of(r@.body))
                &&& r@ == request_for(
                    Operation::ListScenes(SceneKind::Light),
                    r@.api_key,
                    BodyModel::Device {
                        request_id: request_id_of(r@.body),
                        device: device@,
                        sku: sku@,
                    },
                )
            },
            Err(e) => usable_key(optional_model(api_key)) == Err::<Seq<char>, ErrorModel>(e@),
        },
{
    list_scenes_request(SceneKind::Light, api_key, device, sku)
}

/// Lists the light scenes of a device, from the outcome of the exchange.
pub fn get_light_scenes(exchange: Exchange) -> (result: Result<Vec<SceneOption>, ApiError>)
    ensures
        match result {
            Ok(options) => scenes_outcome(SceneKind::Light, exchange@) == Ok::<
                Seq<SceneOptionModel>,
                ErrorModel,
            >(models(options@)),
            Err(e) => scenes_outcome(SceneKind::Light, exchange@) == Err::<
                Seq<SceneOptionModel>,
                ErrorModel,
            >(e@),
        },
{
    list_scenes(SceneKind::Light, exchange)
}

/// The call that asks for the DIY scenes of a device.
pub fn get_diy_scenes_request(api_key: Option<String>, device: String, sku: String) -> (request:
    Result<HttpRequest, ApiError>)
    ensures
        match request {
            Ok(r) => {
                &&& usable_key(optional_model(api_key)) == Ok::<Seq<char>, ErrorModel>(r@.api_key)
                &&& is_request_id(request_id_of(r@.body))
                &&& r@ == request_for(
                    Operation::ListScenes(SceneKind::Diy),
                    r@.api_key,
                    BodyModel::Device {
                        request_id: request_id_of(r@.body),
                        device: device@,
                        sku: sku@,
                    },
                )
            },
            Err(e) => usable_key(optional_model(api_key)) == Err::<Seq<char>, ErrorModel>(e@),
        },
{
    list_scenes_request(SceneKind::Diy, api_key, device, sku)
}

/// Lists the DIY scenes of a device, from the outcome of the exchange.
pub fn get_diy_scenes(exchange: Exchange) -> (result: Result<Vec<SceneOption>, ApiError>)
    ensures
        match result {
            Ok(options) => scenes_outcome(SceneKind::Diy, exchange@) == Ok::<
                Seq<SceneOptionModel>,
                ErrorModel,
            >(models(options@)),
            Err(e) => scenes_outcome(SceneKind::Diy, exchange@) == Err::<
                Seq<SceneOptionModel>,
                ErrorModel,
            >(e@),
        },
{
    list_scenes(SceneKind::Diy, exchange)
}

/// The devices that an answer with the code 200 gives are the devices of the
/// answer, in their order: each with the vendor's prefix stripped from its
/// type label where the label begins with it, and otherwise unchanged.
pub proof fn lemma_devices_result(response: DeviceListModel)
    requires
        response.code == 200,
    ensures
        devices_result(response) is Ok,
        devices_result(response)->Ok_0.len() == response.data.len(),
        forall|i: int|
            0 <= i < response.data.len() ==> {
                let before = #[trigger] response.data[i];
                let after = devices_result(response)->Ok_0[i];
                &&& after.device_type == bare_type_label(before.device_type)
                &&& after.sku == before.sku
                &&& after.device == before.device
                &&& after.device_name == before.device_name
                &&& after.capabilities == before.capabilities
            },
{
}

/// An answer whose inner code is not 200 is a remote error with that code
/// and the answer's message, whatever the operation.
pub proof fn lemma_remote_error(
    devices: DeviceListModel,
    state: ResponseModel<DeviceStateModel>,
    kind: SceneKind,
    scenes: ResponseModel<ScenePayloadModel>,
)
    ensures
        devices.code != 200 ==> devices_result(devices) == Err::<Seq<DeviceModel>, ErrorModel>(
            ErrorModel::RemoteError { code: devices.code, message: devices.message },
        ),
        state.code != 200 ==> state_result(state) == Err::<DeviceStateModel, ErrorModel>(
            ErrorModel::RemoteError { code: state.code, message: state.msg },
        ),
        scenes.code != 200 ==> scenes_result(kind, scenes) == Err::<
            Seq<SceneOptionModel>,
            ErrorModel,
        >(ErrorModel::RemoteError { code: scenes.code, message: scenes.msg }),
{
}

/// An exchange that was answered with a successful HTTP status and a body
/// that matches the wire schema gives what the decoded answer gives: a
/// successful HTTP status does not hide a code other than 200 inside.
pub proof fn lemma_outcome_of_decoded(
    status: u16,
    text: Seq<char>,
    json: ValueModel,
    kind: SceneKind,
)
    requires
        is_success(status),
    ensures
        device_list_schema(json) matches Ok(response) ==> devices_outcome(
            ExchangeModel::Answered { status, text, json: Ok(json) },
        ) == devices_result(response),
        state_response_schema(json) matches Ok(response) ==> state_outcome(
            ExchangeModel::Answered { status, text, json: Ok(json) },
        ) == state_result(response),
        scene_response_schema(json) matches Ok(response) ==> scenes_outcome(
            kind,
            ExchangeModel::Answered { status, text, json: Ok(json) },
        ) == scenes_result(kind, response),
{
}

/// An answer whose HTTP status is not a success is a rejection that carries
/// the status and the text of the body, whatever the operation and whatever
/// the body holds.
pub proof fn lemma_rejected(
    operation: Operation,
    status: u16,
    text: Seq<char>,
    json: Result<ValueModel, Seq<char>>,
)
    requires
        !is_success(status),
    ensures
        accepted(operation, ExchangeModel::Answered { status, text, json }) == Err::<
            ValueModel,
            ErrorModel,
        >(ErrorModel::ApiRejected { status, body: text }),
{
}

/// A control command whose answer has an HTTP status from 400 to 599, or any
/// other that is not a success, fails as rejected, with the status and the
/// text of the body.
pub proof fn lemma_control_rejected(
    status: u16,
    text: Seq<char>,
    json: Result<ValueModel, Seq<char>>,
)
    ensures
        400 <= status <= 599 ==> !is_success(status),
        !is_success(status) ==> control_outcome(ExchangeModel::Answered { status, text, json })
            == Err::<(), ErrorModel>(ErrorModel::ApiRejected { status, body: text }),
        is_success(status) ==> control_outcome(ExchangeModel::Answered { status, text, json })
            == Ok::<(), ErrorModel>(()),
{
}

/// The scenes that a decoded answer gives are the options of the capability
/// named `lightScene` for the light scenes and `diyScene` for the DIY scenes,
/// and the call fails with not-found exactly where the answer holds no
/// capability of that name.
pub proof fn lemma_scenes_found(kind: SceneKind, response: ResponseModel<ScenePayloadModel>)
    requires
        response.code == 200,
    ensures
        ({
            let outcome = scenes_result(kind, response);
            let found = scene_options(response.payload, scene_instance(kind));
            &&& found matches Some(options) ==> outcome == Ok::<Seq<SceneOptionModel>, ErrorModel>(
                options,
            )
            &&& found is None <==> outcome == Err::<Seq<SceneOptionModel>, ErrorModel>(
                ErrorModel::NotFound { kind },
            )
        }),
{
}

/// An empty key is a missing key: no call can be made under it.
pub proof fn lemma_empty_key_is_missing()
    ensures
        usable_key(Some(Seq::<char>::empty())) == Err::<Seq<char>, ErrorModel>(
            ErrorModel::MissingApiKey,
        ),
        usable_key(None) == Err::<Seq<char>, ErrorModel>(ErrorModel::MissingApiKey),
{
}

} // verus!
