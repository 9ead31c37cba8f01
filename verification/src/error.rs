//! The library's error type and its rendering as text.

use crate::sdk;
use vstd::prelude::*;
use vstd::string::StringExecFns;

verus! {

/// What a library operation can fail with.
#[derive(Debug)]
pub enum PluginError {
    /// The SDK rejected a value while an event was being built, or a send
    /// failed; carries the SDK's own error.
    PostHogClient(posthog_rs::Error),
    /// The remote client's options could not be assembled; carries the
    /// builder's rendered error.
    ClientOptions(String),
    /// A timestamp could not be interpreted as a date.
    TimestampParse(String),
    /// No api key was configured.
    MissingApiKey,
}

/// The text shown for a missing api key.
pub open spec fn missing_api_key_text() -> Seq<char> {
    "Missing API key: Please set POSTHOG_API_KEY environment variable or configure apiKey in tauri.conf.json"@
}

/// The display text of an error.
pub open spec fn error_text(e: PluginError) -> Seq<char> {
    match e {
        PluginError::PostHogClient(pe) => "PostHog client error: "@ + sdk::posthog_error_text(pe),
        PluginError::ClientOptions(s) => "Client options error: "@ + s@,
        PluginError::TimestampParse(s) => "Timestamp parse error: "@ + s@,
        PluginError::MissingApiKey => missing_api_key_text(),
    }
}

impl PluginError {
    /// Renders the error as text.
    pub fn message(&self) -> (r: String)
        ensures
            r@ == error_text(*self),
    {
        match self {
            PluginError::PostHogClient(pe) => {
                let rendered = sdk::posthog_error_message(pe);
                String::from_str("PostHog client error: ").concat(rendered.as_str())
            },
            PluginError::ClientOptions(s) => String::from_str("Client options error: ").concat(
                s.as_str(),
            ),
            PluginError::TimestampParse(s) => String::from_str("Timestamp parse error: ").concat(
                s.as_str(),
            ),
            PluginError::MissingApiKey => String::from_str(
                "Missing API key: Please set POSTHOG_API_KEY environment variable or configure apiKey in tauri.conf.json",
            ),
        }
    }
}

} // verus!
