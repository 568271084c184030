//! The one error shape that every operation reports.

use vstd::prelude::*;
use vstd::string::StringExecFns;

verus! {

/// The two families of scenes that a device may offer.
#[derive(Debug, Clone, Copy, PartialEq, Eq, Structural)]
pub enum SceneKind {
    Light,
    Diy,
}

/// The remote operations.
#[derive(Debug, Clone, Copy, PartialEq, Eq, Structural)]
pub enum Operation {
    ListDevices,
    GetState,
    SendControl,
    ListScenes(SceneKind),
}

/// Why a call did not succeed. Every error ends the call it belongs to:
/// nothing is retried and nothing is recovered locally.
#[derive(Debug, PartialEq, Eq)]
pub enum ApiError {
    /// No API key is configured, or the key is empty.
    MissingApiKey,
    /// The key holds a character that cannot stand in a header value.
    InvalidApiKeyFormat,
    /// The transport failed before an answer arrived.
    NetworkFailure { operation: Operation, reason: String },
    /// The answer's body does not match the expected schema.
    DecodeFailure { reason: String },
    /// The HTTP status of the answer is not a success.
    ApiRejected { status: u16, body: String },
    /// The status code inside the answer is not 200.
    RemoteError { code: i32, message: String },
    /// The answer holds no capability for the scenes asked for.
    NotFound { kind: SceneKind },
    /// The caller gave the call up while it waited for the answer.
    Cancelled,
    /// The settings store failed.
    Settings { reason: String },
}

/// What an [`ApiError`] stands for.
pub enum ErrorModel {
    MissingApiKey,
    InvalidApiKeyFormat,
    NetworkFailure { operation: Operation, reason: Seq<char> },
    DecodeFailure { reason: Seq<char> },
    ApiRejected { status: u16, body: Seq<char> },
    RemoteError { code: i32, message: Seq<char> },
    NotFound { kind: SceneKind },
    Cancelled,
    Settings { reason: Seq<char> },
}

impl View for ApiError {
    type V = ErrorModel;

    open spec fn view(&self) -> ErrorModel {
        match self {
            ApiError::MissingApiKey => ErrorModel::MissingApiKey,
            ApiError::InvalidApiKeyFormat => ErrorModel::InvalidApiKeyFormat,
            ApiError::NetworkFailure { operation, reason } => ErrorModel::NetworkFailure {
                operation: *operation,
                reason: reason@,
            },
            ApiError::DecodeFailure { reason } => ErrorModel::DecodeFailure { reason: reason@ },
            ApiError::ApiRejected { status, body } => ErrorModel::ApiRejected {
                status: *status,
                body: body@,
            },
            ApiError::RemoteError { code, message } => ErrorModel::RemoteError {
                code: *code,
                message: message@,
            },
            ApiError::NotFound { kind } => ErrorModel::NotFound { kind: *kind },
            ApiError::Cancelled => ErrorModel::Cancelled,
            ApiError::Settings { reason } => ErrorModel::Settings { reason: reason@ },
        }
    }
}

/// What the `Display` of `reqwest::StatusCode` prints for a status code from
/// 100 to 999: the number, a space, and the reason phrase that the library
/// keeps for the code. The phrases are the library's table and are not
/// spelled out here.
pub uninterp spec fn status_line(code: u16) -> Seq<char>;

/// `reqwest::StatusCode::from_u16`, and the status code's `Display`.
///
/// The conversion accepts the codes from 100 to 999 and no others. The text
/// is named by [`status_line`].
#[verifier::external_body]
fn status_text(code: u16) -> (text: Option<String>)
    ensures
        text is Some <==> 100 <= code <= 999,
        text matches Some(line) ==> line@ == status_line(code),
{
    match reqwest::StatusCode::from_u16(code) {
        Ok(status) => Some(status.to_string()),
        Err(_) => None,
    }
}

/// How the failure of the transport is introduced, by operation.
pub open spec fn failure_prefix(operation: Operation) -> Seq<char> {
    match operation {
        Operation::ListDevices => "Failed to fetch devices: "@,
        Operation::GetState => "Failed to fetch device state: "@,
        Operation::SendControl => "Failed to send control command: "@,
        Operation::ListScenes(SceneKind::Light) => "Failed to fetch light scenes: "@,
        Operation::ListScenes(SceneKind::Diy) => "Failed to fetch DIY scenes: "@,
    }
}

/// The message for a rejected call, given the status line where the status
/// code has one.
pub open spec fn rejection_text(line: Option<Seq<char>>, body: Seq<char>) -> Seq<char> {
    match line {
        Some(line) => "API error ("@ + line + "): "@ + body,
        None => "API error: "@ + body,
    }
}

/// The message that a person reads for an error.
pub open spec fn message_text(error: ErrorModel) -> Seq<char> {
    match error {
        ErrorModel::MissingApiKey => "API key not set. Please set your Govee API key first."@,
        ErrorModel::InvalidApiKeyFormat => "Invalid API key format: failed to parse header value"@,
        ErrorModel::NetworkFailure { operation, reason } => failure_prefix(operation) + reason,
        ErrorModel::DecodeFailure { reason } => "Failed to parse response: "@ + reason,
        ErrorModel::ApiRejected { status, body } => rejection_text(
            if 100 <= status <= 999 {
                Some(status_line(status))
            } else {
                None
            },
            body,
        ),
        ErrorModel::RemoteError { code, message } => "API error: "@ + message,
        ErrorModel::NotFound { kind } => match kind {
            SceneKind::Light => "No light scenes found"@,
            SceneKind::Diy => "No DIY scenes found"@,
        },
        ErrorModel::Cancelled => "Request cancelled"@,
        ErrorModel::Settings { reason } => reason,
    }
}

/// Puts `prefix` before `rest`.
fn prefixed(prefix: &str, rest: &str) -> (text: String)
    ensures
        text@ == prefix@ + rest@,
{
    let mut text = String::from_str(prefix);
    text.append(rest);
    text
}

/// Words the message for a rejected call from the status line, where there
/// is one, and the body of the answer.
pub fn rejection_message(line: Option<String>, body: &str) -> (text: String)
    ensures
        text@ == rejection_text(crate::model::optional_model(line), body@),
{
    match line {
        Some(line) => {
            let mut text = String::from_str("API error (");
            text.append(line.as_str());
            text.append("): ");
            text.append(body);
            text
        },
        None => prefixed("API error: ", body),
    }
}

impl ApiError {
    /// The message that a person reads for this error.
    pub fn message(&self) -> (text: String)
        ensures
            text@ == message_text(self@),
    {
        match self {
            ApiError::MissingApiKey => String::from_str(
                "API key not set. Please set your Govee API key first.",
            ),
            ApiError::InvalidApiKeyFormat => String::from_str(
                "Invalid API key format: failed to parse header value",
            ),
            ApiError::NetworkFailure { operation, reason } => {
                let prefix = match operation {
                    Operation::ListDevices => "Failed to fetch devices: ",
                    Operation::GetState => "Failed to fetch device state: ",
                    Operation::SendControl => "Failed to send control command: ",
                    Operation::ListScenes(SceneKind::Light) => "Failed to fetch light scenes: ",
                    Operation::ListScenes(SceneKind::Diy) => "Failed to fetch DIY scenes: ",
                };
                prefixed(prefix, reason.as_str())
            },
            ApiError::DecodeFailure { reason } => prefixed(
                "Failed to parse response: ",
                reason.as_str(),
            ),
            ApiError::ApiRejected { status, body } => rejection_message(
                status_text(*status),
                body.as_str(),
            ),
            ApiError::RemoteError { code, message } => prefixed("API error: ", message.as_str()),
            ApiError::NotFound { kind } => match kind {
                SceneKind::Light => String::from_str("No light scenes found"),
                SceneKind::Diy => String::from_str("No DIY scenes found"),
            },
            ApiError::Cancelled => String::from_str("Request cancelled"),
            ApiError::Settings { reason } => reason.clone(),
        }
    }
}

} // verus!
