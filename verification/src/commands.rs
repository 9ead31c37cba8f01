//! The command surface the host application dispatches to: one function per
//! inbound command, over plain values.  The host performs the surrounding
//! input reading and event sending.

use crate::client::{
    alias_event_built, build_infallible, device_id_key, event_built_for, identify_transition,
    props_after, reset_transition, PostHogClientWrapper,
};
use crate::error::PluginError;
use crate::models::{
    default_api_host, default_api_host_spec, default_request_timeout, options_unset, AliasRequest,
    CaptureRequest, IdentifyRequest, PostHogConfig, PostHogOptions,
};
use crate::sdk;
use vstd::prelude::*;
use vstd::string::StringExecFns;

verus! {

/// Builds the wire-ready event for one capture request.
pub fn capture(client: &PostHogClientWrapper, request: CaptureRequest) -> (r:
    core::result::Result<posthog_rs::Event, PluginError>)
    ensures
        r is Ok ==> event_built_for(r->Ok_0, *client, request),
        r is Err ==> (r->Err_0 is PostHogClient || r->Err_0 is TimestampParse),
        r is Err ==> request.timestamp is Some,
        build_infallible(request) ==> r is Ok,
{
    client.capture(request)
}

/// Builds the wire-ready events for a batch of capture requests; a failure
/// building any one of them aborts the whole batch, so nothing of it can be
/// sent.
pub fn capture_batch(client: &PostHogClientWrapper, requests: Vec<CaptureRequest>) -> (r:
    core::result::Result<Vec<posthog_rs::Event>, PluginError>)
    ensures
        r is Ok ==> (r->Ok_0)@.len() == requests@.len(),
        r is Ok ==> forall|i: int|
            0 <= i < requests@.len() ==> event_built_for(
                #[trigger] (r->Ok_0)@[i],
                *client,
                requests@[i],
            ),
        r is Err ==> (r->Err_0 is PostHogClient || r->Err_0 is TimestampParse),
        (forall|i: int| 0 <= i < requests@.len() ==> build_infallible(#[trigger] requests@[i]))
            ==> r is Ok,
{
    client.capture_batch(requests)
}

/// Everything the identify command promises of the `$identify` event it
/// builds when properties were supplied.
pub open spec fn identify_event_built(
    e: posthog_rs::Event,
    w: PostHogClientWrapper,
    req: IdentifyRequest,
) -> bool {
    &&& sdk::event_name(e) == "$identify"@
    &&& sdk::event_distinct_id(e) == req.distinct_id@
    &&& sdk::event_props(e) == props_after(
        sdk::empty_props(),
        match req.properties {
            Some(v) => v@,
            None => Seq::empty(),
        },
    ).insert(device_id_key(), sdk::json_string_of(w.device_id@))
    &&& sdk::event_groups(e) == sdk::empty_groups()
    &&& sdk::event_timestamp(e) is None
}

/// Stores the requested identity; when properties were supplied, also
/// builds an `$identify` event carrying them under the new identity.
/// Nothing in the built event can be rejected, so this always succeeds.
pub fn identify(client: &mut PostHogClientWrapper, request: IdentifyRequest) -> (r:
    core::result::Result<Option<posthog_rs::Event>, PluginError>)
    ensures
        identify_transition(*old(client), *final(client), request.distinct_id@),
        r is Ok,
        request.properties is None ==> r->Ok_0 is None,
        request.properties is Some ==> r->Ok_0 is Some && identify_event_built(
            r->Ok_0->0,
            *final(client),
            request,
        ),
{
    let ghost req = request;
    let IdentifyRequest { distinct_id, properties } = request;
    client.identify(distinct_id.clone());
    match properties {
        Some(props) => {
            let capture_request = CaptureRequest {
                event: String::from_str("$identify"),
                properties: Some(props),
                distinct_id: Some(distinct_id),
                groups: None,
                timestamp: None,
                anonymous: false,
            };
            match client.capture(capture_request) {
                Ok(ev) => Ok(Some(ev)),
                Err(cause) => Err(cause),
            }
        },
        None => Ok(None),
    }
}

/// Stores the requested identity, then builds the `$create_alias` event
/// addressed to it.
pub fn alias(client: &mut PostHogClientWrapper, request: AliasRequest) -> (r:
    core::result::Result<Option<posthog_rs::Event>, PluginError>)
    ensures
        identify_transition(*old(client), *final(client), request.distinct_id@),
        r is Ok && r->Ok_0 is Some,
        alias_event_built(r->Ok_0->0, request.distinct_id@, request.alias@),
{
    client.identify(request.distinct_id);
    client.alias(request.alias)
}

/// Clears the stored identity; always succeeds.
pub fn reset(client: &mut PostHogClientWrapper) -> (r: core::result::Result<(), PluginError>)
    ensures
        reset_transition(*old(client), *final(client)),
        r is Ok,
{
    client.reset();
    Ok(())
}

/// Returns the stored identity; always succeeds.
pub fn get_distinct_id(client: &PostHogClientWrapper) -> (r: core::result::Result<
    Option<String>,
    PluginError,
>)
    ensures
        r is Ok,
        match r->Ok_0 {
            Some(s) => client.stored_distinct_id() == Some(s@),
            None => client.stored_distinct_id() is None,
        },
{
    Ok(client.get_distinct_id())
}

/// What the resolved configuration promises: the environment value wins
/// over the host configuration value, the host defaults fill the rest, and
/// an all-unset option block is folded to nothing.
pub open spec fn config_resolved(
    c: PostHogConfig,
    env_api_key: Option<String>,
    cfg_api_key: Option<String>,
    env_api_host: Option<String>,
    cfg_api_host: Option<String>,
    options: PostHogOptions,
) -> bool {
    &&& c.api_key@ == (if env_api_key is Some {
        env_api_key->0@
    } else {
        cfg_api_key->0@
    })
    &&& c.api_host@ == (if env_api_host is Some {
        env_api_host->0@
    } else if cfg_api_host is Some {
        cfg_api_host->0@
    } else {
        default_api_host_spec()
    })
    &&& c.request_timeout_seconds == default_request_timeout()
    &&& c.auto_identify == true
    &&& c.options == (if options_unset(options) {
        None::<PostHogOptions>
    } else {
        Some(options)
    })
}

/// Resolves the configuration from the values the host gathered: api key
/// and host from the environment or the host configuration, in that order.
/// A missing api key is a configuration error; everything else has a
/// default.
pub fn get_config(
    env_api_key: Option<String>,
    cfg_api_key: Option<String>,
    env_api_host: Option<String>,
    cfg_api_host: Option<String>,
    options: PostHogOptions,
) -> (r: core::result::Result<PostHogConfig, PluginError>)
    ensures
        r is Err <==> env_api_key is None && cfg_api_key is None,
        r is Err ==> r->Err_0 is MissingApiKey,
        r is Ok ==> config_resolved(
            r->Ok_0,
            env_api_key,
            cfg_api_key,
            env_api_host,
            cfg_api_host,
            options,
        ),
{
    let api_key = match env_api_key {
        Some(k) => k,
        None => match cfg_api_key {
            Some(k) => k,
            None => {
                return Err(PluginError::MissingApiKey);
            },
        },
    };
    let api_host = match env_api_host {
        Some(h) => h,
        None => match cfg_api_host {
            Some(h) => h,
            None => default_api_host(),
        },
    };
    let packed = if options.is_unset() {
        None
    } else {
        Some(options)
    };
    Ok(
        PostHogConfig {
            api_key,
            api_host,
            request_timeout_seconds: 30,
            auto_identify: true,
            options: packed,
        },
    )
}

} // verus!
