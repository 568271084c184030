//! The wire schema: what goes out to the vendor's endpoints and what comes
//! back from them, before anything is normalised.

use vstd::prelude::*;

use crate::device::{DeviceModel, GoveeDevice};
use crate::error::{Operation, SceneKind};
use crate::model::models;
use crate::value::{Value, ValueModel};

verus! {

/// The answer to a list-devices call.
#[derive(Debug, PartialEq, Eq)]
pub struct GoveeResponse {
    pub code: i32,
    pub message: String,
    pub data: Vec<GoveeDevice>,
}

/// What a [`GoveeResponse`] stands for.
pub struct DeviceListModel {
    pub code: i32,
    pub message: Seq<char>,
    pub data: Seq<DeviceModel>,
}

impl View for GoveeResponse {
    type V = DeviceListModel;

    open spec fn view(&self) -> DeviceListModel {
        DeviceListModel { code: self.code, message: self.message@, data: models(self.data@) }
    }
}

/// The envelope of an answer to a posted call. The request identifier that
/// it echoes is carried along and not compared with the one sent.
#[derive(Debug, PartialEq, Eq)]
pub struct ResponseEnvelope<T> {
    pub request_id: String,
    pub code: i32,
    pub msg: String,
    pub payload: T,
}

/// What a [`ResponseEnvelope`] stands for.
pub struct ResponseModel<P> {
    pub request_id: Seq<char>,
    pub code: i32,
    pub msg: Seq<char>,
    pub payload: P,
}

impl<T: View> View for ResponseEnvelope<T> {
    type V = ResponseModel<T::V>;

    open spec fn view(&self) -> ResponseModel<T::V> {
        ResponseModel {
            request_id: self.request_id@,
            code: self.code,
            msg: self.msg@,
            payload: self.payload@,
        }
    }
}

/// The device that a posted call is about.
#[derive(Debug, PartialEq, Eq)]
pub struct DevicePayload {
    pub device: String,
    pub sku: String,
}

/// The capability that a control command sets, and the value it sets it to.
#[derive(Debug, PartialEq, Eq)]
pub struct CapabilityControl {
    pub capability_type: String,
    pub instance: String,
    pub value: Value,
}

/// The device that a control command addresses, and what it is to do.
#[derive(Debug, PartialEq, Eq)]
pub struct ControlPayload {
    pub device: String,
    pub sku: String,
    pub capability: CapabilityControl,
}

/// The envelope of a posted call: a request identifier, fresh for every
/// call, and what the call is about.
#[derive(Debug, PartialEq, Eq)]
pub struct RequestEnvelope<T> {
    pub request_id: String,
    pub payload: T,
}

/// What is posted with a call.
#[derive(Debug, PartialEq, Eq)]
pub enum Body {
    /// Nothing: the call is a plain GET.
    Empty,
    /// The device asked about.
    Device(RequestEnvelope<DevicePayload>),
    /// A control command.
    Control(RequestEnvelope<ControlPayload>),
}

/// What a [`Body`] stands for.
pub enum BodyModel {
    Empty,
    Device { request_id: Seq<char>, device: Seq<char>, sku: Seq<char> },
    Control {
        request_id: Seq<char>,
        device: Seq<char>,
        sku: Seq<char>,
        kind: Seq<char>,
        instance: Seq<char>,
        value: ValueModel,
    },
}

impl View for Body {
    type V = BodyModel;

    open spec fn view(&self) -> BodyModel {
        match self {
            Body::Empty => BodyModel::Empty,
            Body::Device(envelope) => BodyModel::Device {
                request_id: envelope.request_id@,
                device: envelope.payload.device@,
                sku: envelope.payload.sku@,
            },
            Body::Control(envelope) => BodyModel::Control {
                request_id: envelope.request_id@,
                device: envelope.payload.device@,
                sku: envelope.payload.sku@,
                kind: envelope.payload.capability.capability_type@,
                instance: envelope.payload.capability.instance@,
                value: envelope.payload.capability.value@,
            },
        }
    }
}

/// The two HTTP methods that the vendor's endpoints take.
#[derive(Debug, Clone, Copy, PartialEq, Eq, Structural)]
pub enum Method {
    Get,
    Post,
}

/// One outbound call, ready to be sent: the method, the address, the API key
/// that goes into the `Govee-API-Key` header, and the body.
#[derive(Debug, PartialEq, Eq)]
pub struct HttpRequest {
    pub method: Method,
    pub url: String,
    pub api_key: String,
    pub body: Body,
}

/// What an [`HttpRequest`] stands for.
pub struct RequestModel {
    pub method: Method,
    pub url: Seq<char>,
    pub api_key: Seq<char>,
    pub body: BodyModel,
}

impl View for HttpRequest {
    type V = RequestModel;

    open spec fn view(&self) -> RequestModel {
        RequestModel {
            method: self.method,
            url: self.url@,
            api_key: self.api_key@,
            body: self.body@,
        }
    }
}

/// The address of the endpoint of an operation.
pub open spec fn endpoint(operation: Operation) -> Seq<char> {
    match operation {
        Operation::ListDevices => "https://openapi.api.govee.com/router/api/v1/user/devices"@,
        Operation::GetState => "https://openapi.api.govee.com/router/api/v1/device/state"@,
        Operation::SendControl => "https://openapi.api.govee.com/router/api/v1/device/control"@,
        Operation::ListScenes(SceneKind::Light) =>
            "https://openapi.api.govee.com/router/api/v1/device/scenes"@,
        Operation::ListScenes(SceneKind::Diy) =>
            "https://openapi.api.govee.com/router/api/v1/device/diy-scenes"@,
    }
}

/// The address of the endpoint of an operation.
pub fn endpoint_url(operation: Operation) -> (url: &'static str)
    ensures
        url@ == endpoint(operation),
{
    match operation {
        Operation::ListDevices => "https://openapi.api.govee.com/router/api/v1/user/devices",
        Operation::GetState => "https://openapi.api.govee.com/router/api/v1/device/state",
        Operation::SendControl => "https://openapi.api.govee.com/router/api/v1/device/control",
        Operation::ListScenes(SceneKind::Light) =>
            "https://openapi.api.govee.com/router/api/v1/device/scenes",
        Operation::ListScenes(SceneKind::Diy) =>
            "https://openapi.api.govee.com/router/api/v1/device/diy-scenes",
    }
}

/// How one exchange with the vendor ended, as the transport reports it.
#[derive(Debug, PartialEq, Eq)]
pub enum Exchange {
    /// The caller gave the call up before an answer arrived.
    Cancelled,
    /// The transport failed, for the reason given.
    Failed { reason: String },
    /// An answer arrived: its HTTP status, its body as text, and the body
    /// parsed as JSON, or why it could not be parsed.
    Answered { status: u16, text: String, json: Result<Value, String> },
}

/// What an [`Exchange`] stands for.
pub enum ExchangeModel {
    Cancelled,
    Failed { reason: Seq<char> },
    Answered { status: u16, text: Seq<char>, json: Result<ValueModel, Seq<char>> },
}

impl View for Exchange {
    type V = ExchangeModel;

    open spec fn view(&self) -> ExchangeModel {
        match self {
            Exchange::Cancelled => ExchangeModel::Cancelled,
            Exchange::Failed { reason } => ExchangeModel::Failed { reason: reason@ },
            Exchange::Answered { status, text, json } => ExchangeModel::Answered {
                status: *status,
                text: text@,
                json: match json {
                    Ok(body) => Ok(body@),
                    Err(reason) => Err(reason@),
                },
            },
        }
    }
}

} // verus!
