//! Shallow, kind-specific checks of a payload's fields.
use vstd::prelude::*;
use crate::json::{doc_keys, has_field};
use crate::models::{Event, EventType};

verus! {

/// The payload fields that an event of kind `k` must carry.
pub open spec fn required_fields(k: EventType) -> Seq<Seq<char>> {
    match k {
        EventType::Registration => seq!["user_id"@, "country"@, "device_os"@],
        EventType::SessionPing => seq!["user_id"@],
        EventType::Match => seq!["match_id"@, "home_user_id"@, "away_user_id"@],
    }
}

/// Every field required by kind `k` is present in the payload `p`.
pub open spec fn fields_present(k: EventType, p: serde_json::Value) -> bool {
    forall|i: int|
        0 <= i < required_fields(k).len() ==> #[trigger] doc_keys(p).contains(required_fields(k)[i])
}

/// Every field required by the event's kind is present in its payload.
pub open spec fn valid_event(e: Event) -> bool {
    fields_present(e.event_type, e.event_data)
}

/// Accepts an event exactly when its payload carries every field that its
/// kind requires; extra fields and the fields' types are not looked at.
pub fn is_valid_event(event: &Event) -> (r: bool)
    ensures
        r == valid_event(*event),
{
    let d = &event.event_data;
    let r = match event.event_type {
        EventType::Registration => {
            has_field(d, "user_id") && has_field(d, "country") && has_field(d, "device_os")
        },
        EventType::SessionPing => has_field(d, "user_id"),
        EventType::Match => {
            has_field(d, "match_id") && has_field(d, "home_user_id") && has_field(d, "away_user_id")
        },
    };
    assert(r == valid_event(*event)) by {
        let req = required_fields(event.event_type);
        if !r {
            if event.event_type == EventType::SessionPing {
                assert(!doc_keys(*d).contains(req[0]));
            } else if !doc_keys(*d).contains(req[0]) {
            } else if !doc_keys(*d).contains(req[1]) {
            } else {
                assert(!doc_keys(*d).contains(req[2]));
            }
        }
    }
    r
}

} // verus!
