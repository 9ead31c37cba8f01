use posthog_plugin::commands;
use posthog_plugin::models::{
    default_api_host, AliasRequest, CaptureRequest, IdentifyRequest, PostHogConfig, PostHogOptions,
};
use posthog_plugin::{PluginError, PostHogClientWrapper};
use serde_json::Value;

fn wrapper() -> PostHogClientWrapper {
    let config = PostHogConfig {
        api_key: "key".to_string(),
        ..PostHogConfig::default()
    };
    PostHogClientWrapper::with_device_id(config, "dev-1".to_string())
}

fn as_json(event: &posthog_rs::Event) -> Value {
    serde_json::to_value(event).expect("events serialize")
}

#[test]
fn alias_without_identity_is_a_silent_no_op() {
    let w = wrapper();
    let outcome = w.alias("new_name".to_string()).expect("always succeeds");
    assert!(outcome.is_none());
}

#[test]
fn alias_with_identity_builds_the_create_alias_event() {
    let mut w = wrapper();
    w.identify("alice".to_string());
    let event = w
        .alias("al".to_string())
        .expect("always succeeds")
        .expect("an identity is stored");
    let json = as_json(&event);
    assert_eq!(json["event"], Value::String("$create_alias".to_string()));
    assert_eq!(json["distinct_id"], Value::String("alice".to_string()));
    assert_eq!(json["properties"]["alias"], Value::String("al".to_string()));
}

#[test]
fn alias_command_stores_the_identity_then_aliases_it() {
    let mut w = wrapper();
    let request = AliasRequest {
        distinct_id: "old_name".to_string(),
        alias: "new_name".to_string(),
    };
    let event = commands::alias(&mut w, request)
        .expect("always succeeds")
        .expect("an identity was just stored");
    let json = as_json(&event);
    assert_eq!(json["distinct_id"], Value::String("old_name".to_string()));
    assert_eq!(
        json["properties"]["alias"],
        Value::String("new_name".to_string())
    );
    assert_eq!(w.get_distinct_id(), Some("old_name".to_string()));
}

#[test]
fn identify_command_without_properties_emits_nothing() {
    let mut w = wrapper();
    let request = IdentifyRequest {
        distinct_id: "alice".to_string(),
        properties: None,
    };
    let outcome = commands::identify(&mut w, request).expect("nothing to reject");
    assert!(outcome.is_none());
    assert_eq!(w.get_distinct_id(), Some("alice".to_string()));
}

#[test]
fn identify_command_with_properties_builds_the_identify_event() {
    let mut w = wrapper();
    let request = IdentifyRequest {
        distinct_id: "alice".to_string(),
        properties: Some(vec![(
            "plan".to_string(),
            Value::String("paid".to_string()),
        )]),
    };
    let event = commands::identify(&mut w, request)
        .expect("the property serializes")
        .expect("properties were supplied");
    let json = as_json(&event);
    assert_eq!(json["event"], Value::String("$identify".to_string()));
    assert_eq!(json["distinct_id"], Value::String("alice".to_string()));
    assert_eq!(json["properties"]["plan"], Value::String("paid".to_string()));
    assert_eq!(
        json["properties"]["$device_id"],
        Value::String("dev-1".to_string())
    );
    assert_eq!(w.get_distinct_id(), Some("alice".to_string()));
}

#[test]
fn capture_command_delegates_to_the_wrapper() {
    let w = wrapper();
    let request = CaptureRequest {
        event: "viewed".to_string(),
        properties: None,
        distinct_id: Some("alice".to_string()),
        groups: None,
        timestamp: None,
        anonymous: false,
    };
    let event = commands::capture(&w, request).expect("buildable");
    assert_eq!(as_json(&event)["event"], Value::String("viewed".to_string()));
}

#[test]
fn reset_command_clears_the_identity() {
    let mut w = wrapper();
    w.identify("alice".to_string());
    commands::reset(&mut w).expect("always succeeds");
    assert_eq!(w.get_distinct_id(), None);
}

#[test]
fn get_distinct_id_command_reads_the_store() {
    let mut w = wrapper();
    assert_eq!(commands::get_distinct_id(&w).expect("always succeeds"), None);
    w.identify("alice".to_string());
    assert_eq!(
        commands::get_distinct_id(&w).expect("always succeeds"),
        Some("alice".to_string())
    );
}

#[test]
fn get_config_without_any_api_key_is_an_error() {
    let outcome = commands::get_config(None, None, None, None, PostHogOptions::default());
    assert!(matches!(outcome, Err(PluginError::MissingApiKey)));
}

#[test]
fn get_config_prefers_the_environment_api_key() {
    let config = commands::get_config(
        Some("env-key".to_string()),
        Some("cfg-key".to_string()),
        None,
        None,
        PostHogOptions::default(),
    )
    .expect("an api key is present");
    assert_eq!(config.api_key, "env-key".to_string());
}

#[test]
fn get_config_takes_the_configured_api_key_when_no_environment_one() {
    let config = commands::get_config(
        None,
        Some("cfg-key".to_string()),
        None,
        None,
        PostHogOptions::default(),
    )
    .expect("an api key is present");
    assert_eq!(config.api_key, "cfg-key".to_string());
}

#[test]
fn get_config_defaults_the_host_and_timeout() {
    let config = commands::get_config(
        Some("env-key".to_string()),
        None,
        None,
        None,
        PostHogOptions::default(),
    )
    .expect("an api key is present");
    assert_eq!(config.api_host, "https://us.i.posthog.com".to_string());
    assert_eq!(config.request_timeout_seconds, 30);
    assert!(config.auto_identify);
}

#[test]
fn get_config_prefers_the_environment_host() {
    let config = commands::get_config(
        Some("env-key".to_string()),
        None,
        Some("https://eu.posthog.com".to_string()),
        Some("https://cfg.example".to_string()),
        PostHogOptions::default(),
    )
    .expect("an api key is present");
    assert_eq!(config.api_host, "https://eu.posthog.com".to_string());
}

#[test]
fn get_config_folds_an_unset_option_block_to_nothing() {
    let config = commands::get_config(
        Some("env-key".to_string()),
        None,
        None,
        None,
        PostHogOptions::default(),
    )
    .expect("an api key is present");
    assert!(config.options.is_none());
}

#[test]
fn get_config_keeps_a_set_option_block() {
    let mut options = PostHogOptions::default();
    options.debug = Some(true);
    let config = commands::get_config(Some("env-key".to_string()), None, None, None, options)
        .expect("an api key is present");
    let kept = config.options.expect("an option was set");
    assert_eq!(kept.debug, Some(true));
}

#[test]
fn default_api_host_is_the_us_ingestion_host() {
    assert_eq!(default_api_host(), "https://us.i.posthog.com".to_string());
}

#[test]
fn default_config_values() {
    let config = PostHogConfig::default();
    assert_eq!(config.api_key, String::new());
    assert_eq!(config.api_host, "https://us.i.posthog.com".to_string());
    assert_eq!(config.request_timeout_seconds, 30);
    assert!(config.auto_identify);
    assert!(config.options.is_none());
}

#[test]
fn default_options_are_unset() {
    assert!(PostHogOptions::default().is_unset());
}

#[test]
fn client_options_require_an_api_key() {
    let config = PostHogConfig::default();
    let w = PostHogClientWrapper::with_device_id(config, "dev-1".to_string());
    assert!(matches!(
        w.client_options(),
        Err(PluginError::MissingApiKey)
    ));
}

#[test]
fn client_options_build_once_an_api_key_is_set() {
    let w = wrapper();
    assert!(w.client_options().is_ok());
}

#[test]
fn sdk_errors_render_under_the_client_error_prefix() {
    let w = wrapper();
    let mut request = CaptureRequest {
        event: "viewed".to_string(),
        properties: None,
        distinct_id: None,
        groups: None,
        timestamp: None,
        anonymous: false,
    };
    request.timestamp = Some(32_503_680_000_000);
    let message = w
        .capture(request)
        .expect_err("a future timestamp is rejected")
        .message();
    assert!(message.starts_with("PostHog client error: "));
}

#[test]
fn missing_api_key_error_message() {
    assert_eq!(
        PluginError::MissingApiKey.message(),
        "Missing API key: Please set POSTHOG_API_KEY environment variable or configure apiKey in tauri.conf.json".to_string()
    );
}

#[test]
fn construction_passes_the_source_id_through() {
    let w = PostHogClientWrapper::from_device_source(
        PostHogConfig::default(),
        Ok("machine-7".to_string()),
    )
    .expect("the source yielded an id");
    assert_eq!(w.get_device_id(), "machine-7");
    assert_eq!(w.get_distinct_id(), None);
}

#[test]
fn construction_surfaces_a_failing_source() {
    let outcome = PostHogClientWrapper::from_device_source(
        PostHogConfig::default(),
        Err("no readable identifier".to_string()),
    );
    match outcome {
        Err(PluginError::ClientOptions(text)) => assert_eq!(
            text,
            "Failed to get machine UID for device_id: no readable identifier".to_string()
        ),
        _ => panic!("a failing source must fail construction"),
    }
}

#[test]
fn error_messages_carry_their_cause() {
    let parse = PluginError::TimestampParse("bad".to_string());
    assert_eq!(parse.message(), "Timestamp parse error: bad".to_string());
    let options = PluginError::ClientOptions("bad".to_string());
    assert_eq!(options.message(), "Client options error: bad".to_string());
}
