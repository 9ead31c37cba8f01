use posthog_plugin::models::{CaptureRequest, PostHogConfig};
use posthog_plugin::{PluginError, PostHogClientWrapper};
use serde_json::Value;

fn wrapper_with(device: &str, auto_identify: bool) -> PostHogClientWrapper {
    let config = PostHogConfig {
        api_key: "key".to_string(),
        auto_identify,
        ..PostHogConfig::default()
    };
    PostHogClientWrapper::with_device_id(config, device.to_string())
}

fn plain_request(event: &str) -> CaptureRequest {
    CaptureRequest {
        event: event.to_string(),
        properties: None,
        distinct_id: None,
        groups: None,
        timestamp: None,
        anonymous: false,
    }
}

fn as_json(event: &posthog_rs::Event) -> Value {
    serde_json::to_value(event).expect("events serialize")
}

#[test]
fn capture_records_name_and_explicit_identity() {
    let w = wrapper_with("dev-1", true);
    let mut request = plain_request("button_clicked");
    request.distinct_id = Some("alice".to_string());
    let event = w.capture(request).expect("buildable");
    let json = as_json(&event);
    assert_eq!(json["event"], Value::String("button_clicked".to_string()));
    assert_eq!(json["distinct_id"], Value::String("alice".to_string()));
    assert_eq!(
        json["properties"]["$device_id"],
        Value::String("dev-1".to_string())
    );
}

#[test]
fn capture_uses_stored_identity_when_request_has_none() {
    let mut w = wrapper_with("dev-1", true);
    w.identify("bob".to_string());
    let event = w.capture(plain_request("viewed")).expect("buildable");
    assert_eq!(
        as_json(&event)["distinct_id"],
        Value::String("bob".to_string())
    );
}

#[test]
fn capture_falls_back_to_device_derived_identity() {
    let w = wrapper_with("dev-1", true);
    let event = w.capture(plain_request("viewed")).expect("buildable");
    assert_eq!(
        as_json(&event)["distinct_id"],
        Value::String("$device:dev-1".to_string())
    );
}

#[test]
fn capture_falls_back_to_raw_device_id_without_auto_identify() {
    let w = wrapper_with("dev-1", false);
    let event = w.capture(plain_request("viewed")).expect("buildable");
    assert_eq!(
        as_json(&event)["distinct_id"],
        Value::String("dev-1".to_string())
    );
}

#[test]
fn anonymous_capture_carries_no_resolved_identity() {
    let mut w = wrapper_with("dev-1", true);
    w.identify("alice".to_string());
    let mut request = plain_request("viewed");
    request.distinct_id = Some("bob".to_string());
    request.anonymous = true;
    let event = w.capture(request).expect("buildable");
    let json = as_json(&event);
    assert_ne!(json["distinct_id"], Value::String("alice".to_string()));
    assert_ne!(json["distinct_id"], Value::String("bob".to_string()));
    assert_ne!(json["distinct_id"], Value::String("dev-1".to_string()));
    assert_eq!(json["properties"]["$process_person_profile"], Value::Bool(false));
    assert_eq!(
        json["properties"]["$device_id"],
        Value::String("dev-1".to_string())
    );
}

#[test]
fn properties_merge_in_order_and_last_write_wins() {
    let w = wrapper_with("dev-1", true);
    let mut request = plain_request("viewed");
    request.properties = Some(vec![
        ("plan".to_string(), Value::String("free".to_string())),
        ("count".to_string(), Value::from(3)),
        ("plan".to_string(), Value::String("paid".to_string())),
    ]);
    let event = w.capture(request).expect("buildable");
    let json = as_json(&event);
    assert_eq!(json["properties"]["plan"], Value::String("paid".to_string()));
    assert_eq!(json["properties"]["count"], Value::from(3));
}

#[test]
fn device_id_property_wins_over_a_caller_supplied_one() {
    let w = wrapper_with("dev-1", true);
    let mut request = plain_request("viewed");
    request.properties = Some(vec![(
        "$device_id".to_string(),
        Value::String("spoofed".to_string()),
    )]);
    let event = w.capture(request).expect("buildable");
    assert_eq!(
        as_json(&event)["properties"]["$device_id"],
        Value::String("dev-1".to_string())
    );
}

#[test]
fn groups_record_in_order_and_last_write_wins() {
    let w = wrapper_with("dev-1", true);
    let mut request = plain_request("viewed");
    request.groups = Some(vec![
        ("company".to_string(), "acme".to_string()),
        ("team".to_string(), "ops".to_string()),
        ("company".to_string(), "initech".to_string()),
    ]);
    let event = w.capture(request).expect("buildable");
    let json = as_json(&event);
    assert_eq!(json["groups"]["company"], Value::String("initech".to_string()));
    assert_eq!(json["groups"]["team"], Value::String("ops".to_string()));
    assert_eq!(json["properties"]["$process_person_profile"], Value::Bool(true));
}

#[test]
fn anonymous_capture_with_groups_turns_person_profile_back_on() {
    let w = wrapper_with("dev-1", true);
    let mut request = plain_request("viewed");
    request.anonymous = true;
    request.groups = Some(vec![("company".to_string(), "acme".to_string())]);
    let event = w.capture(request).expect("buildable");
    assert_eq!(
        as_json(&event)["properties"]["$process_person_profile"],
        Value::Bool(true)
    );
}

#[test]
fn explicit_timestamp_is_attached() {
    let w = wrapper_with("dev-1", true);
    let mut request = plain_request("viewed");
    request.timestamp = Some(1_000_000_000_000);
    let event = w.capture(request).expect("buildable");
    let stamped = as_json(&event)["timestamp"]
        .as_str()
        .expect("timestamp serializes as text")
        .to_string();
    assert!(stamped.starts_with("2001-09-09T01:46:40"));
}

#[test]
fn missing_timestamp_is_left_for_the_sdk() {
    let w = wrapper_with("dev-1", true);
    let event = w.capture(plain_request("viewed")).expect("buildable");
    assert_eq!(as_json(&event)["timestamp"], Value::Null);
}

#[test]
fn future_timestamp_is_a_client_error() {
    let w = wrapper_with("dev-1", true);
    let mut request = plain_request("viewed");
    // The year 3000: the SDK rejects timestamps in the future.
    request.timestamp = Some(32_503_680_000_000);
    match w.capture(request) {
        Err(PluginError::PostHogClient(_)) => {}
        Err(other) => panic!("unexpected error: {}", other.message()),
        Ok(_) => panic!("a future timestamp must be rejected"),
    }
}

#[test]
fn unrepresentable_timestamp_is_a_parse_error() {
    let w = wrapper_with("dev-1", true);
    let mut request = plain_request("viewed");
    request.timestamp = Some(i64::MAX);
    match w.capture(request) {
        Err(PluginError::TimestampParse(_)) => {}
        Err(other) => panic!("unexpected error: {}", other.message()),
        Ok(_) => panic!("an unrepresentable timestamp must be rejected"),
    }
}

#[test]
fn batch_builds_every_event_in_order() {
    let w = wrapper_with("dev-1", true);
    let events = w
        .capture_batch(vec![plain_request("first"), plain_request("second")])
        .expect("buildable");
    assert_eq!(events.len(), 2);
    assert_eq!(as_json(&events[0])["event"], Value::String("first".to_string()));
    assert_eq!(as_json(&events[1])["event"], Value::String("second".to_string()));
}

#[test]
fn batch_with_one_bad_event_yields_nothing() {
    let w = wrapper_with("dev-1", true);
    let good = plain_request("first");
    let mut bad = plain_request("second");
    bad.timestamp = Some(32_503_680_000_000);
    match w.capture_batch(vec![good, bad]) {
        Err(PluginError::PostHogClient(_)) => {}
        Err(other) => panic!("unexpected error: {}", other.message()),
        Ok(_) => panic!("the whole batch must fail"),
    }
}

#[test]
fn empty_batch_succeeds_with_no_events() {
    let w = wrapper_with("dev-1", true);
    let events = w.capture_batch(Vec::new()).expect("buildable");
    assert!(events.is_empty());
}
