use govee_client::error::{ApiError, Operation};
use govee_client::settings::{
    get_api_key, init, set_api_key, set_api_key_request, settings_saved, SettingsEntry,
};
use govee_client::value::Value;
use govee_client::wire::{Body, Exchange, HttpRequest, Method};

fn answer(status: u16) -> Exchange {
    Exchange::Answered {
        status,
        text: "body".to_string(),
        json: Err("no JSON".to_string()),
    }
}

#[test]
fn set_empty_api_key_scenario() {
    assert_eq!(set_api_key_request(""), Err(ApiError::MissingApiKey));
    assert_eq!(
        set_api_key(String::new(), answer(200)),
        Err(ApiError::MissingApiKey)
    );
}

#[test]
fn new_key_is_tried_with_a_list_devices_call() {
    assert_eq!(
        set_api_key_request("fresh-key"),
        Ok(HttpRequest {
            method: Method::Get,
            url: "https://openapi.api.govee.com/router/api/v1/user/devices".to_string(),
            api_key: "fresh-key".to_string(),
            body: Body::Empty,
        })
    );
}

#[test]
fn malformed_new_key_is_refused_before_the_call() {
    assert_eq!(
        set_api_key_request("a\nb"),
        Err(ApiError::InvalidApiKeyFormat)
    );
    assert_eq!(
        set_api_key("a\nb".to_string(), answer(200)),
        Err(ApiError::InvalidApiKeyFormat)
    );
}

#[test]
fn key_is_stored_after_a_successful_answer() {
    for status in [200u16, 201, 204, 299] {
        assert_eq!(
            set_api_key("fresh-key".to_string(), answer(status)),
            Ok(SettingsEntry {
                name: "api_key".to_string(),
                value: Value::Text("fresh-key".to_string()),
            })
        );
    }
}

#[test]
fn key_is_not_stored_after_any_other_answer() {
    for status in [199u16, 300, 401, 403, 500] {
        assert_eq!(
            set_api_key("fresh-key".to_string(), answer(status)),
            Err(ApiError::ApiRejected {
                status,
                body: "body".to_string()
            })
        );
    }
    assert_eq!(
        set_api_key(
            "fresh-key".to_string(),
            Exchange::Failed {
                reason: "offline".to_string()
            }
        ),
        Err(ApiError::NetworkFailure {
            operation: Operation::ListDevices,
            reason: "offline".to_string()
        })
    );
    assert_eq!(
        set_api_key("fresh-key".to_string(), Exchange::Cancelled),
        Err(ApiError::Cancelled)
    );
}

#[test]
fn stored_key_reads_back() {
    let entry = set_api_key("fresh-key".to_string(), answer(200)).unwrap();
    assert_eq!(
        get_api_key(Some(entry.value)),
        Some("fresh-key".to_string())
    );
}

#[test]
fn only_a_text_is_a_stored_key() {
    assert_eq!(get_api_key(None), None);
    assert_eq!(
        get_api_key(Some(Value::Text("k".to_string()))),
        Some("k".to_string())
    );
    assert_eq!(
        get_api_key(Some(Value::Text(String::new()))),
        Some(String::new())
    );
    assert_eq!(get_api_key(Some(Value::Integer(7))), None);
    assert_eq!(get_api_key(Some(Value::Boolean(true))), None);
    assert_eq!(get_api_key(Some(Value::Float(1.5f64.to_bits()))), None);
    assert_eq!(get_api_key(Some(Value::Null)), None);
    assert_eq!(
        get_api_key(Some(Value::Array(vec![Value::Text("k".to_string())]))),
        None
    );
    assert_eq!(
        get_api_key(Some(Value::Object(vec![(
            "api_key".to_string(),
            Value::Text("k".to_string())
        )]))),
        None
    );
}

#[test]
fn failure_to_save_is_reported_in_fixed_words() {
    assert_eq!(settings_saved(Ok(())), Ok(()));
    assert_eq!(
        settings_saved(Err("disk full".to_string())),
        Err(ApiError::Settings {
            reason: "Failed to save settings".to_string()
        })
    );
}

#[test]
fn start_up_work_runs_once() {
    let mut initialized = false;
    assert!(init(&mut initialized));
    assert!(initialized);
    assert!(!init(&mut initialized));
    assert!(initialized);
    assert!(!init(&mut initialized));
}
