//! The plain request and configuration types the library operates on.
//!
//! Property and group maps are held as lists of key/value pairs in the order
//! the caller supplied them; when they are folded into an event, a later
//! entry for the same key wins.

use vstd::prelude::*;
use vstd::string::StringExecFns;

verus! {

/// A request to record one analytics event.
pub struct CaptureRequest {
    /// The event name.
    pub event: String,
    /// Caller-supplied properties, merged into the event in order.
    pub properties: Option<Vec<(String, serde_json::Value)>>,
    /// An explicit distinct id for this event, taking precedence over the
    /// identity store.
    pub distinct_id: Option<String>,
    /// Group associations, recorded in order; a later entry for the same
    /// group type wins.
    pub groups: Option<Vec<(String, String)>>,
    /// An explicit timestamp, as milliseconds since the unix epoch; when
    /// absent the SDK assigns one at capture.
    pub timestamp: Option<i64>,
    /// When set, the event is recorded without attaching the resolved
    /// identity.
    pub anonymous: bool,
}

/// A request to set the current identity, optionally recording an
/// `$identify` event carrying the given properties.
pub struct IdentifyRequest {
    /// The distinct id to store.
    pub distinct_id: String,
    /// When present, properties for an `$identify` event.
    pub properties: Option<Vec<(String, serde_json::Value)>>,
}

/// A request to alias the current identity under a new name.
pub struct AliasRequest {
    /// The distinct id to store before aliasing.
    pub distinct_id: String,
    /// The alias to record.
    pub alias: String,
}

/// The wrapper's configuration, immutable once the wrapper is constructed.
pub struct PostHogConfig {
    /// The project api key; required.
    pub api_key: String,
    /// The host events are sent to.
    pub api_host: String,
    /// Per-request timeout for the remote client, in seconds.
    pub request_timeout_seconds: u64,
    /// When set, a device-derived distinct id is used whenever no identity
    /// has been stored.
    pub auto_identify: bool,
    /// Pass-through options for the embedding application's front end.
    pub options: Option<PostHogOptions>,
}

/// Front-end options handed through to the embedding application; the
/// library never reads them.
pub struct PostHogOptions {
    pub disable_cookie: Option<bool>,
    pub disable_session_recording: Option<bool>,
    pub capture_pageview: Option<bool>,
    pub capture_pageleave: Option<bool>,
    pub debug: Option<bool>,
    pub persistence: Option<String>,
    pub person_profiles: Option<String>,
}

/// The host events are sent to when none is configured.
pub open spec fn default_api_host_spec() -> Seq<char> {
    "https://us.i.posthog.com"@
}

/// Returns the default event host.
pub fn default_api_host() -> (r: String)
    ensures
        r@ == default_api_host_spec(),
{
    String::from_str("https://us.i.posthog.com")
}

/// The default per-request timeout, in seconds.
pub open spec fn default_request_timeout() -> u64 {
    30
}

/// Holds when no front-end option is set.
pub open spec fn options_unset(o: PostHogOptions) -> bool {
    &&& o.disable_cookie is None
    &&& o.disable_session_recording is None
    &&& o.capture_pageview is None
    &&& o.capture_pageleave is None
    &&& o.debug is None
    &&& o.persistence is None
    &&& o.person_profiles is None
}

impl PostHogOptions {
    /// Reports whether no option is set.
    pub fn is_unset(&self) -> (r: bool)
        ensures
            r == options_unset(*self),
    {
        self.disable_cookie.is_none() && self.disable_session_recording.is_none()
            && self.capture_pageview.is_none() && self.capture_pageleave.is_none()
            && self.debug.is_none() && self.persistence.is_none()
            && self.person_profiles.is_none()
    }
}

impl Default for PostHogOptions {
    /// Returns options with nothing set.
    fn default() -> (r: Self)
        ensures
            options_unset(r),
    {
        PostHogOptions {
            disable_cookie: None,
            disable_session_recording: None,
            capture_pageview: None,
            capture_pageleave: None,
            debug: None,
            persistence: None,
            person_profiles: None,
        }
    }
}

impl Default for PostHogConfig {
    /// Returns a configuration with an empty api key, the default host, the
    /// default timeout, auto-identify on, and no front-end options.
    fn default() -> (r: Self)
        ensures
            r.api_key@ == Seq::<char>::empty(),
            r.api_host@ == default_api_host_spec(),
            r.request_timeout_seconds == default_request_timeout(),
            r.auto_identify == true,
            r.options is None,
    {
        PostHogConfig {
            api_key: String::new(),
            api_host: default_api_host(),
            request_timeout_seconds: 30,
            auto_identify: true,
            options: None,
        }
    }
}

} // verus!
