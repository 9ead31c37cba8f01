//! The client wrapper: identity state, identity resolution, and the
//! construction of wire-ready SDK events.

use crate::error::PluginError;
use crate::models::{CaptureRequest, PostHogConfig};
use crate::sdk;
use vstd::prelude::*;
use vstd::string::StringExecFns;

verus! {

/// Holds the identity state and configuration behind the capture, identify,
/// alias and reset operations.  The device id never changes after
/// construction; the distinct id is set by `identify` and cleared by
/// `reset`.
pub struct PostHogClientWrapper {
    /// The user-chosen identity, when one has been stored.
    pub distinct_id: Option<String>,
    /// The stable per-installation identifier.
    pub device_id: String,
    /// The configuration given at construction.
    pub config: PostHogConfig,
}

/// The prefix under which a device-derived distinct id is formed.
pub open spec fn auto_distinct_id_of(device_id: Seq<char>) -> Seq<char> {
    "$device:"@ + device_id
}

/// The two wrappers agree on everything but the stored distinct id.
pub open spec fn same_identity_context(w0: PostHogClientWrapper, w1: PostHogClientWrapper) -> bool {
    &&& w1.device_id@ == w0.device_id@
    &&& w1.config == w0.config
}

/// What `identify` does: the new id is stored, everything else is kept.
pub open spec fn identify_transition(
    w0: PostHogClientWrapper,
    w1: PostHogClientWrapper,
    new_id: Seq<char>,
) -> bool {
    &&& w1.stored_distinct_id() == Some(new_id)
    &&& same_identity_context(w0, w1)
}

/// What `reset` does: the stored id is cleared, everything else is kept.
pub open spec fn reset_transition(w0: PostHogClientWrapper, w1: PostHogClientWrapper) -> bool {
    &&& w1.stored_distinct_id() is None
    &&& same_identity_context(w0, w1)
}

impl PostHogClientWrapper {
    /// The stored identity override, viewed as a sequence of characters.
    pub open spec fn stored_distinct_id(self) -> Option<Seq<char>> {
        match self.distinct_id {
            Some(s) => Some(s@),
            None => None,
        }
    }

    /// The identity used when nothing is stored: the device-derived id when
    /// auto-identify is on, else the raw device id.
    pub open spec fn fallback_distinct_id(self) -> Seq<char> {
        if self.config.auto_identify {
            auto_distinct_id_of(self.device_id@)
        } else {
            self.device_id@
        }
    }

    /// The identity a capture without an explicit id is recorded under.
    pub open spec fn effective_distinct_id(self) -> Seq<char> {
        match self.stored_distinct_id() {
            Some(s) => s,
            None => self.fallback_distinct_id(),
        }
    }

    /// The identity a capture request is recorded under: the request's own
    /// id when present, else the effective identity.
    pub open spec fn resolved_distinct_id(self, request_id: Option<String>) -> Seq<char> {
        match request_id {
            Some(s) => s@,
            None => self.effective_distinct_id(),
        }
    }

    /// Builds a wrapper around a known device id, with no identity stored.
    pub fn with_device_id(config: PostHogConfig, device_id: String) -> (w: Self)
        ensures
            w.config == config,
            w.device_id == device_id,
            w.stored_distinct_id() is None,
    {
        PostHogClientWrapper { distinct_id: None, device_id, config }
    }

    /// Builds a wrapper from what the machine-identifier source returned:
    /// its id becomes the device id, and its failure is the construction's
    /// failure, surfaced as a configuration error naming the cause -- never
    /// silently defaulted.
    pub fn from_device_source(
        config: PostHogConfig,
        source: core::result::Result<String, String>,
    ) -> (r: core::result::Result<Self, PluginError>)
        ensures
            r is Ok <==> source is Ok,
            r is Ok ==> (r->Ok_0).config == config && (r->Ok_0).device_id@ == source->Ok_0@
                && (r->Ok_0).stored_distinct_id() is None,
            r is Err ==> r->Err_0 is ClientOptions && (r->Err_0)->ClientOptions_0@
                == "Failed to get machine UID for device_id: "@ + source->Err_0@,
    {
        match source {
            Ok(device_id) => Ok(Self::with_device_id(config, device_id)),
            Err(cause) => Err(
                PluginError::ClientOptions(
                    String::from_str("Failed to get machine UID for device_id: ").concat(
                        cause.as_str(),
                    ),
                ),
            ),
        }
    }

    /// Builds a wrapper whose device id is the machine's stable identifier.
    /// When that identifier cannot be read the construction fails, since
    /// identity correctness depends on it.
    pub fn new(config: PostHogConfig) -> (r: core::result::Result<Self, PluginError>)
        ensures
            r is Ok ==> (r->Ok_0).config == config && (r->Ok_0).stored_distinct_id() is None,
            r is Err ==> r->Err_0 is ClientOptions,
    {
        Self::from_device_source(config, sdk::machine_id())
    }

    /// Stores `distinct_id` as the current identity, overwriting any
    /// previous value.
    pub fn identify(&mut self, distinct_id: String)
        ensures
            identify_transition(*old(self), *final(self), distinct_id@),
    {
        self.distinct_id = Some(distinct_id);
    }

    /// Clears the stored identity.
    pub fn reset(&mut self)
        ensures
            reset_transition(*old(self), *final(self)),
    {
        self.distinct_id = None;
    }

    /// Returns the stored identity, or nothing when none is stored.
    pub fn get_distinct_id(&self) -> (r: Option<String>)
        ensures
            match r {
                Some(s) => self.stored_distinct_id() == Some(s@),
                None => self.stored_distinct_id() is None,
            },
    {
        match &self.distinct_id {
            Some(s) => Some(s.clone()),
            None => None,
        }
    }

    /// Returns the device id.
    pub fn get_device_id(&self) -> (r: &str)
        ensures
            r@ == self.device_id@,
    {
        self.device_id.as_str()
    }

    /// Returns the configuration.
    pub fn get_config(&self) -> (r: &PostHogConfig)
        ensures
            *r == self.config,
    {
        &self.config
    }

    /// Reports whether a device-derived id stands in for a missing identity.
    pub fn is_auto_identify_enabled(&self) -> (r: bool)
        ensures
            r == self.config.auto_identify,
    {
        self.config.auto_identify
    }

    /// Returns the identity a capture without an explicit id would be
    /// recorded under.
    pub fn get_effective_distinct_id(&self) -> (r: String)
        ensures
            r@ == self.effective_distinct_id(),
    {
        match &self.distinct_id {
            Some(s) => s.clone(),
            None => self.fallback_id(),
        }
    }

    /// Assembles the remote client's options from the configuration.  A
    /// missing api key fails fast, before any network use; any other
    /// configuration builds, carrying the configured api key and host (each
    /// trimmed of surrounding whitespace by the builder, with the default
    /// host standing in for a blank one) and the configured timeout.
    pub fn client_options(&self) -> (r: core::result::Result<
        posthog_rs::ClientOptions,
        PluginError,
    >)
        ensures
            r is Ok <==> self.config.api_key@.len() > 0,
            r is Err ==> r->Err_0 is MissingApiKey,
            r is Ok ==> sdk::options_api_key(r->Ok_0) == sdk::trimmed_of(self.config.api_key@),
            r is Ok ==> sdk::options_host(r->Ok_0) == (if sdk::trimmed_of(
                self.config.api_host@,
            ).len() > 0 {
                Some(sdk::trimmed_of(self.config.api_host@))
            } else {
                Some(crate::models::default_api_host_spec())
            }),
            r is Ok ==> sdk::options_timeout(r->Ok_0) == self.config.request_timeout_seconds,
    {
        if self.config.api_key.as_str().is_empty() {
            return Err(PluginError::MissingApiKey);
        }
        match sdk::build_client_options(
            self.config.api_key.clone(),
            self.config.api_host.clone(),
            self.config.request_timeout_seconds,
        ) {
            Ok(options) => Ok(options),
            Err(cause) => Err(PluginError::ClientOptions(cause)),
        }
    }

    /// Builds the fallback identity.
    fn fallback_id(&self) -> (r: String)
        ensures
            r@ == self.fallback_distinct_id(),
    {
        if self.config.auto_identify {
            String::from_str("$device:").concat(self.device_id.as_str())
        } else {
            self.device_id.clone()
        }
    }
}

/// The key under which the device id is attached to every captured event.
pub open spec fn device_id_key() -> Seq<char> {
    "$device_id"@
}

/// The property entries of a request, in order.
pub open spec fn req_prop_entries(req: CaptureRequest) -> Seq<(String, serde_json::Value)> {
    match req.properties {
        Some(v) => v@,
        None => Seq::empty(),
    }
}

/// The group entries of a request, in order.
pub open spec fn req_group_entries(req: CaptureRequest) -> Seq<(String, String)> {
    match req.groups {
        Some(v) => v@,
        None => Seq::empty(),
    }
}

/// Holds when building an event from the request involves no call that
/// could reject a value: success is then owed.  Only an explicit timestamp
/// can be rejected; properties always serialize.
pub open spec fn build_infallible(req: CaptureRequest) -> bool {
    req.timestamp is None
}

/// The properties an event starts with: anonymous events carry the
/// person-profile property set to false, identified events start empty.
pub open spec fn base_props(req: CaptureRequest) -> Map<Seq<char>, serde_json::Value> {
    if req.anonymous {
        sdk::empty_props().insert(sdk::person_profile_key(), sdk::json_bool_of(false))
    } else {
        sdk::empty_props()
    }
}

/// Folds caller property entries into a property map in order; a later
/// entry for the same key wins.
pub open spec fn props_after(
    base: Map<Seq<char>, serde_json::Value>,
    entries: Seq<(String, serde_json::Value)>,
) -> Map<Seq<char>, serde_json::Value>
    decreases entries.len(),
{
    if entries.len() == 0 {
        base
    } else {
        props_after(base.insert(entries[0].0@, entries[0].1), entries.drop_first())
    }
}

/// Folds group entries into a group map in order; a later entry for the
/// same group type wins.
pub open spec fn groups_after(
    base: Map<Seq<char>, Seq<char>>,
    entries: Seq<(String, String)>,
) -> Map<Seq<char>, Seq<char>>
    decreases entries.len(),
{
    if entries.len() == 0 {
        base
    } else {
        groups_after(base.insert(entries[0].0@, entries[0].1@), entries.drop_first())
    }
}

/// The property map of a finished event: the base, the caller entries in
/// order, the person-profile mark that recording any group sets, and then
/// the device id, which always wins.
pub open spec fn expected_event_props(w: PostHogClientWrapper, req: CaptureRequest) -> Map<
    Seq<char>,
    serde_json::Value,
> {
    let merged = props_after(base_props(req), req_prop_entries(req));
    let marked = if req_group_entries(req).len() > 0 {
        merged.insert(sdk::person_profile_key(), sdk::json_bool_of(true))
    } else {
        merged
    };
    marked.insert(device_id_key(), sdk::json_string_of(w.device_id@))
}

/// The group map of a finished event.
pub open spec fn expected_event_groups(req: CaptureRequest) -> Map<Seq<char>, Seq<char>> {
    groups_after(sdk::empty_groups(), req_group_entries(req))
}

/// Everything the capture operation promises of a built event.
pub open spec fn event_built_for(
    e: posthog_rs::Event,
    w: PostHogClientWrapper,
    req: CaptureRequest,
) -> bool {
    &&& sdk::event_name(e) == req.event@
    &&& (!req.anonymous ==> sdk::event_distinct_id(e) == w.resolved_distinct_id(req.distinct_id))
    &&& sdk::event_props(e) == expected_event_props(w, req)
    &&& sdk::event_groups(e) == expected_event_groups(req)
    &&& sdk::event_timestamp(e) == timestamp_millis_of(req.timestamp)
}

/// The timestamp an event stores for a request's timestamp field.
pub open spec fn timestamp_millis_of(t: Option<i64>) -> Option<int> {
    match t {
        Some(ms) => Some(ms as int),
        None => None,
    }
}

/// Everything the alias operation promises of the event it builds for the
/// current identity `current` and the requested alias.
pub open spec fn alias_event_built(
    e: posthog_rs::Event,
    current: Seq<char>,
    alias_text: Seq<char>,
) -> bool {
    &&& sdk::event_name(e) == "$create_alias"@
    &&& sdk::event_distinct_id(e) == current
    &&& sdk::event_props(e) == sdk::empty_props().insert("alias"@, sdk::json_string_of(alias_text))
    &&& sdk::event_groups(e) == sdk::empty_groups()
    &&& sdk::event_timestamp(e) is None
}

impl PostHogClientWrapper {
    /// Builds the wire-ready event for one capture request.  Sending it is
    /// the embedding application's task, and nothing is sent on an error.
    pub fn capture(&self, request: CaptureRequest) -> (r: core::result::Result<
        posthog_rs::Event,
        PluginError,
    >)
        ensures
            r is Ok ==> event_built_for(r->Ok_0, *self, request),
            r is Err ==> (r->Err_0 is PostHogClient || r->Err_0 is TimestampParse),
            r is Err ==> request.timestamp is Some,
            build_infallible(request) ==> r is Ok,
    {
        let ghost req = request;
        let CaptureRequest { event, properties, distinct_id, groups, timestamp, anonymous } =
            request;

        let mut ev = if anonymous {
            sdk::new_anon_event(event.as_str())
        } else {
            let resolved = match distinct_id {
                Some(s) => s,
                None => self.get_effective_distinct_id(),
            };
            sdk::new_event(event.as_str(), resolved.as_str())
        };
        proof {
            assert(sdk::event_props(ev) == base_props(req));
        }

        let mut entries: Vec<(String, serde_json::Value)> = match properties {
            Some(v) => v,
            None => Vec::new(),
        };
        proof {
            assert(entries@ =~= req_prop_entries(req));
        }
        let ghost all_entries = entries@;
        while entries.len() > 0
            invariant
                req == request,
                all_entries == req_prop_entries(req),
                entries@.len() <= all_entries.len(),
                req.properties is None ==> all_entries.len() == 0,
                props_after(sdk::event_props(ev), entries@) == props_after(
                    base_props(req),
                    all_entries,
                ),
                sdk::event_name(ev) == req.event@,
                !req.anonymous ==> sdk::event_distinct_id(ev) == self.resolved_distinct_id(
                    req.distinct_id,
                ),
                sdk::event_groups(ev) == sdk::empty_groups(),
                sdk::event_timestamp(ev) is None,
            decreases entries.len(),
        {
            let ghost pre_entries = entries@;
            let ghost pre_props = sdk::event_props(ev);
            let (key, value) = entries.remove(0);
            proof {
                assert(entries@ =~= pre_entries.drop_first());
            }
            match sdk::insert_prop_value(&mut ev, key, value) {
                Ok(_) => {
                    proof {
                        assert(props_after(pre_props, pre_entries) == props_after(
                            pre_props.insert(pre_entries[0].0@, pre_entries[0].1),
                            pre_entries.drop_first(),
                        ));
                    }
                },
                Err(cause) => {
                    return Err(PluginError::PostHogClient(cause));
                },
            }
        }
        proof {
            assert(props_after(sdk::event_props(ev), entries@) == sdk::event_props(ev));
        }

        let gvec: Vec<(String, String)> = match groups {
            Some(v) => v,
            None => Vec::new(),
        };
        proof {
            assert(gvec@ =~= req_group_entries(req));
        }
        let ghost merged = sdk::event_props(ev);
        let ghost all_groups = gvec@;
        let mut remaining = gvec;
        while remaining.len() > 0
            invariant
                req == request,
                all_groups == req_group_entries(req),
                groups_after(sdk::event_groups(ev), remaining@) == groups_after(
                    sdk::empty_groups(),
                    all_groups,
                ),
                remaining@.len() <= all_groups.len(),
                sdk::event_props(ev) == (if remaining@.len() == all_groups.len() {
                    merged
                } else {
                    merged.insert(sdk::person_profile_key(), sdk::json_bool_of(true))
                }),
                sdk::event_name(ev) == req.event@,
                !req.anonymous ==> sdk::event_distinct_id(ev) == self.resolved_distinct_id(
                    req.distinct_id,
                ),
                sdk::event_timestamp(ev) is None,
            decreases remaining.len(),
        {
            let ghost pre_remaining = remaining@;
            let ghost pre_groups = sdk::event_groups(ev);
            let pair = remaining.remove(0);
            proof {
                assert(remaining@ =~= pre_remaining.drop_first());
            }
            sdk::add_event_group(&mut ev, pair.0.as_str(), pair.1.as_str());
            proof {
                assert(groups_after(pre_groups, pre_remaining) == groups_after(
                    pre_groups.insert(pre_remaining[0].0@, pre_remaining[0].1@),
                    pre_remaining.drop_first(),
                ));
                if pre_remaining.len() < all_groups.len() {
                    assert(merged.insert(sdk::person_profile_key(), sdk::json_bool_of(true)).insert(
                        sdk::person_profile_key(),
                        sdk::json_bool_of(true),
                    ) =~= merged.insert(sdk::person_profile_key(), sdk::json_bool_of(true)));
                }
            }
        }
        proof {
            assert(groups_after(sdk::event_groups(ev), remaining@) == sdk::event_groups(ev));
            assert(sdk::event_groups(ev) == expected_event_groups(req));
        }

        match sdk::insert_prop_str(&mut ev, "$device_id", self.device_id.as_str()) {
            Ok(_) => {},
            Err(cause) => {
                return Err(PluginError::PostHogClient(cause));
            },
        }
        proof {
            assert(sdk::event_props(ev) == expected_event_props(*self, req));
        }

        if let Some(ms) = timestamp {
            match sdk::set_event_timestamp(&mut ev, ms) {
                Ok(_) => {},
                Err(cause) => {
                    return Err(cause);
                },
            }
        }
        Ok(ev)
    }

    /// Builds the wire-ready events for a batch of capture requests.  A
    /// failure building any one event aborts the whole batch: no event is
    /// handed out, so nothing of the batch can be sent.
    pub fn capture_batch(&self, requests: Vec<CaptureRequest>) -> (r: core::result::Result<
        Vec<posthog_rs::Event>,
        PluginError,
    >)
        ensures
            r is Ok ==> (r->Ok_0)@.len() == requests@.len(),
            r is Ok ==> forall|i: int|
                0 <= i < requests@.len() ==> event_built_for(
                    #[trigger] (r->Ok_0)@[i],
                    *self,
                    requests@[i],
                ),
            r is Err ==> (r->Err_0 is PostHogClient || r->Err_0 is TimestampParse),
            (forall|i: int| 0 <= i < requests@.len() ==> build_infallible(#[trigger] requests@[i]))
                ==> r is Ok,
    {
        let ghost all = requests@;
        let mut pending = requests;
        let mut events: Vec<posthog_rs::Event> = Vec::new();
        while pending.len() > 0
            invariant
                all == requests@,
                events@.len() + pending@.len() == all.len(),
                pending@ =~= all.skip(events@.len() as int),
                forall|j: int|
                    0 <= j < events@.len() ==> event_built_for(
                        #[trigger] events@[j],
                        *self,
                        all[j],
                    ),
            decreases pending.len(),
        {
            let ghost built = events@.len() as int;
            let next = pending.remove(0);
            proof {
                assert(next == all[built]);
                assert(pending@ =~= all.skip(built + 1));
            }
            match self.capture(next) {
                Ok(ev) => events.push(ev),
                Err(cause) => {
                    return Err(cause);
                },
            }
        }
        Ok(events)
    }

    /// Builds a `$create_alias` event addressed to the current identity and
    /// carrying the alias as a property.  When no identity is stored this is
    /// a documented no-op: success with no event to send.
    pub fn alias(&self, new_alias: String) -> (r: core::result::Result<
        Option<posthog_rs::Event>,
        PluginError,
    >)
        ensures
            r is Ok,
            self.stored_distinct_id() is None ==> r->Ok_0 is None,
            self.stored_distinct_id() is Some ==> r->Ok_0 is Some && alias_event_built(
                r->Ok_0->0,
                self.stored_distinct_id()->0,
                new_alias@,
            ),
    {
        match self.get_distinct_id() {
            Some(current) => {
                let mut ev = sdk::new_event("$create_alias", current.as_str());
                match sdk::insert_prop_str(&mut ev, "alias", new_alias.as_str()) {
                    Ok(_) => Ok(Some(ev)),
                    Err(cause) => Err(PluginError::PostHogClient(cause)),
                }
            },
            None => Ok(None),
        }
    }
}

} // verus!
