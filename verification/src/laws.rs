//! The library's laws: proof functions stating what holds across the
//! operations, over the same spec functions their contracts use.

use crate::client::{
    auto_distinct_id_of, base_props, device_id_key, expected_event_props, identify_transition,
    props_after, req_group_entries, req_prop_entries, reset_transition, PostHogClientWrapper,
};
use crate::models::CaptureRequest;
use crate::sdk;
use vstd::prelude::*;

verus! {

/// Law: identifying as `new_id` stores exactly `new_id`, so a following
/// read of the distinct id returns it, whatever was stored before.
pub proof fn lemma_identify_then_get(
    w0: PostHogClientWrapper,
    w1: PostHogClientWrapper,
    new_id: Seq<char>,
)
    requires
        identify_transition(w0, w1, new_id),
    ensures
        w1.stored_distinct_id() == Some(new_id),
{
}

/// Law: after a reset the stored distinct id is gone, whatever was stored
/// before, so a following read returns nothing.
pub proof fn lemma_reset_then_get(w0: PostHogClientWrapper, w1: PostHogClientWrapper)
    requires
        reset_transition(w0, w1),
    ensures
        w1.stored_distinct_id() is None,
{
}

/// Law: identifying never changes the device id.
pub proof fn lemma_identify_keeps_device_id(
    w0: PostHogClientWrapper,
    w1: PostHogClientWrapper,
    new_id: Seq<char>,
)
    requires
        identify_transition(w0, w1, new_id),
    ensures
        w1.device_id@ == w0.device_id@,
{
}

/// Law: a reset never changes the device id.
pub proof fn lemma_reset_keeps_device_id(w0: PostHogClientWrapper, w1: PostHogClientWrapper)
    requires
        reset_transition(w0, w1),
    ensures
        w1.device_id@ == w0.device_id@,
{
}

/// Law: a capture with no explicit id resolves to the stored identity when
/// one is set, else to the device-derived id when auto-identify is on, else
/// to the raw device id.
pub proof fn lemma_resolution_without_request_id(w: PostHogClientWrapper)
    ensures
        w.stored_distinct_id() is Some ==> w.resolved_distinct_id(None::<String>)
            == w.stored_distinct_id()->0,
        w.stored_distinct_id() is None && w.config.auto_identify ==> w.resolved_distinct_id(
            None::<String>,
        ) == auto_distinct_id_of(w.device_id@),
        w.stored_distinct_id() is None && !w.config.auto_identify ==> w.resolved_distinct_id(
            None::<String>,
        ) == w.device_id@,
{
}

/// Folding property entries leaves a key untouched when no entry names it.
proof fn lemma_props_after_other_key(
    base: Map<Seq<char>, serde_json::Value>,
    entries: Seq<(String, serde_json::Value)>,
    key: Seq<char>,
)
    requires
        forall|i: int| 0 <= i < entries.len() ==> (#[trigger] entries[i]).0@ != key,
    ensures
        props_after(base, entries).contains_key(key) == base.contains_key(key),
        base.contains_key(key) ==> props_after(base, entries)[key] == base[key],
    decreases entries.len(),
{
    if entries.len() > 0 {
        let rest = entries.drop_first();
        assert forall|i: int| 0 <= i < rest.len() implies (#[trigger] rest[i]).0@ != key by {
            assert(rest[i] == entries[i + 1]);
        }
        lemma_props_after_other_key(base.insert(entries[0].0@, entries[0].1), rest, key);
    }
}

/// Law: an anonymous capture is device-tagged but carries no person
/// profile: its property map holds the person-profile property as false and
/// the device id, and its identity is the one the SDK generates, never one
/// taken from the request or the store.  Requests whose own property list
/// writes the person-profile key are left out: such an entry overrides the
/// marker by the last-write-wins rule.
pub proof fn lemma_anonymous_capture_personless(w: PostHogClientWrapper, req: CaptureRequest)
    requires
        req.anonymous,
        req.groups is None,
        forall|i: int|
            0 <= i < req_prop_entries(req).len() ==> (#[trigger] req_prop_entries(req)[i]).0@
                != sdk::person_profile_key(),
    ensures
        expected_event_props(w, req).contains_key(sdk::person_profile_key()),
        expected_event_props(w, req)[sdk::person_profile_key()] == sdk::json_bool_of(false),
        expected_event_props(w, req).contains_key(device_id_key()),
        expected_event_props(w, req)[device_id_key()] == sdk::json_string_of(w.device_id@),
{
    reveal_strlit("$device_id");
    reveal_strlit("$process_person_profile");
    assert(device_id_key().len() == 10);
    assert(sdk::person_profile_key().len() == 23);
    lemma_props_after_other_key(base_props(req), req_prop_entries(req), sdk::person_profile_key());
}

/// Law: recording any group turns person-profile processing back on, also
/// for an anonymous capture; only the device id is written afterwards, under
/// a different key.
pub proof fn lemma_groups_turn_person_profile_on(w: PostHogClientWrapper, req: CaptureRequest)
    requires
        req_group_entries(req).len() > 0,
    ensures
        expected_event_props(w, req).contains_key(sdk::person_profile_key()),
        expected_event_props(w, req)[sdk::person_profile_key()] == sdk::json_bool_of(true),
{
    reveal_strlit("$device_id");
    reveal_strlit("$process_person_profile");
    assert(device_id_key().len() == 10);
    assert(sdk::person_profile_key().len() == 23);
}

} // verus!
