//! The trusted boundary to the outside crates.
//!
//! Everything the verified code believes about `posthog_rs`, `serde_json`,
//! `chrono` and `machine_uid` is stated here: type declarations so their
//! values may be carried through verified code, uninterpreted names for
//! results that cannot be written out, and `external_body` wrappers whose
//! contracts record what the called function's source shows.

use vstd::prelude::*;

verus! {

// ---------------------------------------------------------------------------
// Outside types carried through the verified code.
// ---------------------------------------------------------------------------

/// `serde_json::Value` is carried opaquely: event properties hold arbitrary
/// JSON values that this crate never inspects.
#[verifier::external_type_specification]
#[verifier::external_body]
pub struct ExValue(serde_json::Value);

/// The SDK's wire-ready event value.  Verified code builds it through the
/// wrappers below and reasons about it through the uninterpreted observers.
#[verifier::external_type_specification]
#[verifier::external_body]
pub struct ExEvent(posthog_rs::Event);

/// The SDK's error type, mapped into [`crate::error::PluginError`] by verified code.
#[verifier::external_type_specification]
#[verifier::external_body]
pub struct ExPostHogError(posthog_rs::Error);

/// The SDK's client configuration, built here and consumed by the embedding
/// application when it constructs the remote client.
#[verifier::external_type_specification]
#[verifier::external_body]
pub struct ExClientOptions(posthog_rs::ClientOptions);

// ---------------------------------------------------------------------------
// Names for what the outside calls return or store.
// ---------------------------------------------------------------------------

/// The name of an event value.
pub uninterp spec fn event_name(e: posthog_rs::Event) -> Seq<char>;

/// The distinct id an event value is attributed to.
pub uninterp spec fn event_distinct_id(e: posthog_rs::Event) -> Seq<char>;

/// The property map an event value carries.
pub uninterp spec fn event_props(e: posthog_rs::Event) -> Map<Seq<char>, serde_json::Value>;

/// The group associations an event value carries.
pub uninterp spec fn event_groups(e: posthog_rs::Event) -> Map<Seq<char>, Seq<char>>;

/// The explicit timestamp an event value carries, if one was set, as
/// milliseconds since the unix epoch.
pub uninterp spec fn event_timestamp(e: posthog_rs::Event) -> Option<int>;

/// The JSON value that serializing a string produces.
pub uninterp spec fn json_string_of(s: Seq<char>) -> serde_json::Value;

/// The JSON value that serializing a boolean produces.
pub uninterp spec fn json_bool_of(b: bool) -> serde_json::Value;

/// The text of an SDK error's display form, a function of the error alone.
pub uninterp spec fn posthog_error_text(e: posthog_rs::Error) -> Seq<char>;

/// The api key a client options value carries.
pub uninterp spec fn options_api_key(o: posthog_rs::ClientOptions) -> Seq<char>;

/// The host a client options value carries, when one is set.
pub uninterp spec fn options_host(o: posthog_rs::ClientOptions) -> Option<Seq<char>>;

/// The per-request timeout a client options value carries, in seconds.
pub uninterp spec fn options_timeout(o: posthog_rs::ClientOptions) -> u64;

/// The text that trimming surrounding whitespace from a string leaves, a
/// function of the string alone.
pub uninterp spec fn trimmed_of(s: Seq<char>) -> Seq<char>;

/// The property key under which the SDK records whether a person profile
/// should be processed for an event.
pub open spec fn person_profile_key() -> Seq<char> {
    "$process_person_profile"@
}

/// An event property map with nothing in it.
pub open spec fn empty_props() -> Map<Seq<char>, serde_json::Value> {
    Map::empty()
}

/// An event group map with nothing in it.
pub open spec fn empty_groups() -> Map<Seq<char>, Seq<char>> {
    Map::empty()
}

// ---------------------------------------------------------------------------
// Wrappers around the outside calls.
// ---------------------------------------------------------------------------

/// Relies on `posthog_rs::Event::new`: stores the given name and distinct id,
/// with no properties, no groups and no timestamp.
#[verifier::external_body]
pub(crate) fn new_event(name: &str, distinct_id: &str) -> (r: posthog_rs::Event)
    ensures
        event_name(r) == name@,
        event_distinct_id(r) == distinct_id@,
        event_props(r) == empty_props(),
        event_groups(r) == empty_groups(),
        event_timestamp(r) is None,
{
    posthog_rs::Event::new(name, distinct_id)
}

/// Relies on `posthog_rs::Event::new_anon`: stores the given name under a
/// freshly generated distinct id (nothing is promised of that id) and sets
/// the person-profile property to `false` so no person profile is created.
#[verifier::external_body]
pub(crate) fn new_anon_event(name: &str) -> (r: posthog_rs::Event)
    ensures
        event_name(r) == name@,
        event_props(r) == empty_props().insert(person_profile_key(), json_bool_of(false)),
        event_groups(r) == empty_groups(),
        event_timestamp(r) is None,
{
    posthog_rs::Event::new_anon(name)
}

/// Relies on `posthog_rs::Event::insert_prop` with a JSON value: a JSON
/// value re-serializes to an equal JSON value and cannot fail, so the
/// property map always gains the key, bound to the given value.
#[verifier::external_body]
pub(crate) fn insert_prop_value(
    e: &mut posthog_rs::Event,
    key: String,
    value: serde_json::Value,
) -> (r: core::result::Result<(), posthog_rs::Error>)
    ensures
        r is Ok,
        event_props(*final(e)) == event_props(*old(e)).insert(key@, value),
        event_name(*final(e)) == event_name(*old(e)),
        event_distinct_id(*final(e)) == event_distinct_id(*old(e)),
        event_groups(*final(e)) == event_groups(*old(e)),
        event_timestamp(*final(e)) == event_timestamp(*old(e)),
{
    e.insert_prop(key, value)
}

/// Relies on `posthog_rs::Event::insert_prop` with a string value: string
/// serialization cannot fail, so the property map always gains the key,
/// bound to the JSON string of the value.
#[verifier::external_body]
pub(crate) fn insert_prop_str(e: &mut posthog_rs::Event, key: &str, value: &str) -> (r:
    core::result::Result<(), posthog_rs::Error>)
    ensures
        r is Ok,
        event_props(*final(e)) == event_props(*old(e)).insert(key@, json_string_of(value@)),
        event_name(*final(e)) == event_name(*old(e)),
        event_distinct_id(*final(e)) == event_distinct_id(*old(e)),
        event_groups(*final(e)) == event_groups(*old(e)),
        event_timestamp(*final(e)) == event_timestamp(*old(e)),
{
    e.insert_prop(key, value)
}

/// Relies on `posthog_rs::Event::add_group`: records the group pair and turns
/// person-profile processing back on for the event.
#[verifier::external_body]
pub(crate) fn add_event_group(e: &mut posthog_rs::Event, group_type: &str, group_id: &str)
    ensures
        event_groups(*final(e)) == event_groups(*old(e)).insert(group_type@, group_id@),
        event_props(*final(e)) == event_props(*old(e)).insert(
            person_profile_key(),
            json_bool_of(true),
        ),
        event_name(*final(e)) == event_name(*old(e)),
        event_distinct_id(*final(e)) == event_distinct_id(*old(e)),
        event_timestamp(*final(e)) == event_timestamp(*old(e)),
{
    e.add_group(group_type, group_id)
}

/// Relies on `chrono::DateTime::from_timestamp_millis` and
/// `posthog_rs::Event::set_timestamp`: milliseconds that no date can
/// represent, and timestamps the SDK judges to lie in the future, are
/// rejected with the event left unchanged; otherwise the instant is stored.
#[verifier::external_body]
pub(crate) fn set_event_timestamp(e: &mut posthog_rs::Event, millis: i64) -> (r:
    core::result::Result<(), crate::error::PluginError>)
    ensures
        r is Ok ==> event_timestamp(*final(e)) == Some(millis as int),
        r is Ok ==> event_name(*final(e)) == event_name(*old(e))
            && event_distinct_id(*final(e)) == event_distinct_id(*old(e))
            && event_props(*final(e)) == event_props(*old(e))
            && event_groups(*final(e)) == event_groups(*old(e)),
        r is Err ==> *final(e) == *old(e),
        r is Err ==> (r->Err_0 is TimestampParse || r->Err_0 is PostHogClient),
{
    match chrono::DateTime::<chrono::Utc>::from_timestamp_millis(millis) {
        Some(ts) => e.set_timestamp(ts).map_err(crate::error::PluginError::PostHogClient),
        None => Err(crate::error::PluginError::TimestampParse(format!(
            "no date corresponds to {} ms",
            millis
        ))),
    }
}

/// Relies on `posthog_rs::Error`'s display implementation: the rendered text
/// is a function of the error value alone.
#[verifier::external_body]
pub(crate) fn posthog_error_message(e: &posthog_rs::Error) -> (r: String)
    ensures
        r@ == posthog_error_text(*e),
{
    format!("{}", e)
}

/// Relies on `machine_uid::get`: reads the operating system's stable machine
/// identifier.  The result depends on the host, so nothing is promised of it.
#[verifier::external_body]
pub(crate) fn machine_id() -> (r: core::result::Result<String, String>) {
    machine_uid::get().map_err(|e| format!("{}", e))
}

/// Relies on `posthog_rs::ClientOptionsBuilder`: sets the api key, host and
/// request timeout and builds.  The generated builder fails only on a
/// required field left unset, and every field of the options either has a
/// default or is set here, so building succeeds; the error is still mapped
/// to text rather than unwrapped.  Building sanitizes: the api key and host
/// are trimmed of surrounding whitespace, and a host that is empty after
/// trimming falls back to the default ingestion host.
#[verifier::external_body]
pub(crate) fn build_client_options(
    api_key: String,
    api_host: String,
    request_timeout_seconds: u64,
) -> (r: core::result::Result<posthog_rs::ClientOptions, String>)
    ensures
        r is Ok,
        options_api_key(r->Ok_0) == trimmed_of(api_key@),
        options_host(r->Ok_0) == (if trimmed_of(api_host@).len() > 0 {
            Some(trimmed_of(api_host@))
        } else {
            Some(crate::models::default_api_host_spec())
        }),
        options_timeout(r->Ok_0) == request_timeout_seconds,
{
    let mut builder = posthog_rs::ClientOptionsBuilder::default();
    builder.api_key(api_key);
    builder.host(api_host);
    builder.request_timeout_seconds(request_timeout_seconds);
    builder.build().map_err(|e| format!("{}", e))
}

} // verus!
