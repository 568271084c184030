//! The API key in the settings store, and the one-time start-up guard.
//!
//! The store itself belongs to the embedding application; it holds loosely
//! typed values under text keys. This module decides what is read from it
//! and what may be written to it.

use vstd::prelude::*;
use vstd::string::StringExecFns;

use crate::client::{checked_api_key, get_devices_request, is_success, request_for, usable_key};
use crate::error::{ApiError, ErrorModel, Operation};
use crate::model::optional_model;
use crate::value::{Value, ValueModel};
use crate::wire::{BodyModel, Exchange, ExchangeModel, HttpRequest};

verus! {

/// The name under which the store holds the API key.
pub open spec fn api_key_setting() -> Seq<char> {
    "api_key"@
}

/// The API key that a stored value holds: the text, where it is one.
pub open spec fn stored_key(stored: Option<ValueModel>) -> Option<Seq<char>> {
    match stored {
        Some(ValueModel::Text(key)) => Some(key),
        _ => None,
    }
}

/// Reads the API key from what the store holds under its name.
pub fn get_api_key(stored: Option<Value>) -> (key: Option<String>)
    ensures
        optional_model(key) == stored_key(optional_model(stored)),
{
    match stored {
        Some(Value::Text(key)) => Some(key),
        _ => None,
    }
}

/// The call that tries a new API key out: a list-devices call under it.
pub fn set_api_key_request(api_key: &str) -> (request: Result<HttpRequest, ApiError>)
    ensures
        match request {
            Ok(r) => {
                &&& usable_key(Some(api_key@)) == Ok::<Seq<char>, ErrorModel>(api_key@)
                &&& r@ == request_for(Operation::ListDevices, api_key@, BodyModel::Empty)
            },
            Err(e) => usable_key(Some(api_key@)) == Err::<Seq<char>, ErrorModel>(e@),
        },
{
    get_devices_request(Some(String::from_str(api_key)))
}

/// One entry to write to the settings store.
#[derive(Debug, PartialEq, Eq)]
pub struct SettingsEntry {
    pub name: String,
    pub value: Value,
}

/// What a [`SettingsEntry`] stands for.
pub struct EntryModel {
    pub name: Seq<char>,
    pub value: ValueModel,
}

impl View for SettingsEntry {
    type V = EntryModel;

    open spec fn view(&self) -> EntryModel {
        EntryModel { name: self.name@, value: self.value@ }
    }
}

/// What trying a new API key out gives: the entry to store, where the key is
/// usable and the answer's HTTP status is a success. A key that is not usable
/// is refused whatever the exchange says.
pub open spec fn set_key_outcome(api_key: Seq<char>, exchange: ExchangeModel) -> Result<
    EntryModel,
    ErrorModel,
> {
    match usable_key(Some(api_key)) {
        Err(e) => Err(e),
        Ok(_) => match exchange {
            ExchangeModel::Cancelled => Err(ErrorModel::Cancelled),
            ExchangeModel::Failed { reason } => Err(
                ErrorModel::NetworkFailure { operation: Operation::ListDevices, reason },
            ),
            ExchangeModel::Answered { status, text, json } => if is_success(status) {
                Ok(EntryModel { name: api_key_setting(), value: ValueModel::Text(api_key) })
            } else {
                Err(ErrorModel::ApiRejected { status, body: text })
            },
        },
    }
}

/// Decides whether a new API key is stored, from the outcome of the exchange
/// that tried it out.
pub fn set_api_key(api_key: String, exchange: Exchange) -> (result: Result<
    SettingsEntry,
    ApiError,
>)
    ensures
        match result {
            Ok(entry) => set_key_outcome(api_key@, exchange@) == Ok::<EntryModel, ErrorModel>(
                entry@,
            ),
            Err(e) => set_key_outcome(api_key@, exchange@) == Err::<EntryModel, ErrorModel>(e@),
        },
{
    match checked_api_key(Some(api_key)) {
        Err(e) => Err(e),
        Ok(key) => match exchange {
            Exchange::Cancelled => Err(ApiError::Cancelled),
            Exchange::Failed { reason } => Err(
                ApiError::NetworkFailure { operation: Operation::ListDevices, reason },
            ),
            Exchange::Answered { status, text, json } => {
                if 200 <= status && status < 300 {
                    Ok(SettingsEntry { name: String::from_str("api_key"), value: Value::Text(key) })
                } else {
                    Err(ApiError::ApiRejected { status, body: text })
                }
            },
        },
    }
}

/// What the saving of the store gives: an error of the settings store where
/// the store reported one, whatever its words.
pub open spec fn save_outcome(saved: Result<(), Seq<char>>) -> Result<(), ErrorModel> {
    match saved {
        Ok(_) => Ok(()),
        Err(_) => Err(ErrorModel::Settings { reason: "Failed to save settings"@ }),
    }
}

/// Reads what the store reported when it was asked to save.
pub fn settings_saved(saved: Result<(), String>) -> (result: Result<(), ApiError>)
    ensures
        match result {
            Ok(_) => save_outcome(saved_model(saved)) == Ok::<(), ErrorModel>(()),
            Err(e) => save_outcome(saved_model(saved)) == Err::<(), ErrorModel>(e@),
        },
{
    match saved {
        Ok(_) => Ok(()),
        Err(_) => Err(ApiError::Settings { reason: String::from_str("Failed to save settings") }),
    }
}

/// What the store reported when it was asked to save.
pub open spec fn saved_model(saved: Result<(), String>) -> Result<(), Seq<char>> {
    match saved {
        Ok(_) => Ok(()),
        Err(reason) => Err(reason@),
    }
}

/// An entry that [`set_api_key`] hands out holds a key that reads back as the
/// key that was tried, and that every operation accepts.
pub proof fn lemma_stored_key_is_usable(api_key: Seq<char>, exchange: ExchangeModel)
    requires
        set_key_outcome(api_key, exchange) is Ok,
    ensures
        set_key_outcome(api_key, exchange)->Ok_0.name == api_key_setting(),
        stored_key(Some(set_key_outcome(api_key, exchange)->Ok_0.value)) == Some(api_key),
        usable_key(Some(api_key)) == Ok::<Seq<char>, ErrorModel>(api_key),
        is_success(exchange->Answered_status),
{
}

/// An empty key is refused before anything is sent, and is never stored.
pub proof fn lemma_empty_key_is_refused(exchange: ExchangeModel)
    ensures
        usable_key(Some(Seq::<char>::empty())) == Err::<Seq<char>, ErrorModel>(
            ErrorModel::MissingApiKey,
        ),
        set_key_outcome(Seq::<char>::empty(), exchange) == Err::<EntryModel, ErrorModel>(
            ErrorModel::MissingApiKey,
        ),
{
}

/// The guard of the start-up work, which is to run once per process: says
/// whether this call is the first, and marks the work as done.
pub fn init(initialized: &mut bool) -> (first: bool)
    ensures
        first == !*old(initialized),
        *final(initialized),
{
    let first = !*initialized;
    *initialized = true;
    first
}

} // verus!
