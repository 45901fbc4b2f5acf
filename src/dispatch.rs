//! From a claimed event to the one store write that its kind calls for.
use vstd::prelude::*;
use crate::json::{doc_ints, doc_keys, doc_nulls, doc_strs, has_field, int_field, null_field, str_field};
use crate::models::{Event, EventType, MatchData, Rejection, RegistrationData, SessionPingData};

verus! {

/// One idempotent write against the store, with the event's timestamp.
#[derive(Debug, Clone)]
pub enum StoreWrite {
    /// Insert a registration keyed by user id; an existing row is kept.
    Registration(RegistrationData, i64),
    /// Append a session-start row.
    SessionPing(SessionPingData, i64),
    /// Insert a match keyed by match id; an existing row is kept.
    Match(MatchData, i64),
}

/// `key` holds a string in `d`, and `s` is that string.
pub open spec fn string_at(d: serde_json::Value, key: Seq<char>, s: String) -> bool {
    doc_strs(d).contains_key(key) && s@ == doc_strs(d)[key]
}

/// An optional string field is usable: absent, null, or a string.
pub open spec fn opt_string_ok(d: serde_json::Value, key: Seq<char>) -> bool {
    !doc_keys(d).contains(key) || doc_nulls(d).contains(key) || doc_strs(d).contains_key(key)
}

/// `o` is what an optional string field reads as.
pub open spec fn opt_string_at(d: serde_json::Value, key: Seq<char>, o: Option<String>) -> bool {
    match o {
        Some(s) => string_at(d, key, s),
        None => !doc_strs(d).contains_key(key),
    }
}

/// An optional integer field is usable: absent, null, or an integer that fits in `i32`.
pub open spec fn opt_i32_ok(d: serde_json::Value, key: Seq<char>) -> bool {
    if doc_ints(d).contains_key(key) {
        i32::MIN <= doc_ints(d)[key] <= i32::MAX
    } else {
        !doc_keys(d).contains(key) || doc_nulls(d).contains(key)
    }
}

/// `o` is what an optional integer field reads as.
pub open spec fn opt_i32_at(d: serde_json::Value, key: Seq<char>, o: Option<i32>) -> bool {
    match o {
        Some(n) => doc_ints(d).contains_key(key) && n as int == doc_ints(d)[key],
        None => !doc_ints(d).contains_key(key),
    }
}

/// The payload has the typed shape that the event's kind asks for.
pub open spec fn payload_ok(e: Event) -> bool {
    let d = e.event_data;
    match e.event_type {
        EventType::Registration => {
            &&& doc_strs(d).contains_key("user_id"@)
            &&& doc_strs(d).contains_key("country"@)
            &&& doc_strs(d).contains_key("device_os"@)
        },
        EventType::SessionPing => {
            &&& doc_strs(d).contains_key("user_id"@)
            &&& opt_string_ok(d, "session_type"@)
        },
        EventType::Match => {
            &&& doc_strs(d).contains_key("match_id"@)
            &&& doc_strs(d).contains_key("home_user_id"@)
            &&& doc_strs(d).contains_key("away_user_id"@)
            &&& opt_i32_ok(d, "home_goals_scored"@)
            &&& opt_i32_ok(d, "away_goals_scored"@)
        },
    }
}

/// `w` is the write for event `e`: the kind's write, the payload's fields, the
/// event's timestamp.
pub open spec fn write_for(e: Event, w: StoreWrite) -> bool {
    let d = e.event_data;
    match w {
        StoreWrite::Registration(r, ts) => {
            &&& e.event_type == EventType::Registration
            &&& ts == e.event_timestamp
            &&& string_at(d, "user_id"@, r.user_id)
            &&& string_at(d, "country"@, r.country)
            &&& string_at(d, "device_os"@, r.device_os)
        },
        StoreWrite::SessionPing(p, ts) => {
            &&& e.event_type == EventType::SessionPing
            &&& ts == e.event_timestamp
            &&& string_at(d, "user_id"@, p.user_id)
            &&& opt_string_at(d, "session_type"@, p.session_type)
        },
        StoreWrite::Match(m, ts) => {
            &&& e.event_type == EventType::Match
            &&& ts == e.event_timestamp
            &&& string_at(d, "match_id"@, m.match_id)
            &&& string_at(d, "home_user_id"@, m.home_user_id)
            &&& string_at(d, "away_user_id"@, m.away_user_id)
            &&& opt_i32_at(d, "home_goals_scored"@, m.home_goals_scored)
            &&& opt_i32_at(d, "away_goals_scored"@, m.away_goals_scored)
        },
    }
}

fn opt_string_field(d: &serde_json::Value, key: &str) -> (r: Result<Option<String>, Rejection>)
    ensures
        r is Ok == opt_string_ok(*d, key@),
        r matches Ok(o) ==> opt_string_at(*d, key@, o),
        r matches Err(x) ==> x == Rejection::PayloadShape,
{
    match str_field(d, key) {
        Some(s) => Ok(Some(s)),
        None => if !has_field(d, key) || null_field(d, key) {
            Ok(None)
        } else {
            Err(Rejection::PayloadShape)
        },
    }
}

fn opt_i32_field(d: &serde_json::Value, key: &str) -> (r: Result<Option<i32>, Rejection>)
    ensures
        r is Ok == opt_i32_ok(*d, key@),
        r matches Ok(o) ==> opt_i32_at(*d, key@, o),
        r matches Err(x) ==> x == Rejection::PayloadShape,
{
    match int_field(d, key) {
        Some(n) => if i32::MIN as i64 <= n && n <= i32::MAX as i64 {
            Ok(Some(n as i32))
        } else {
            Err(Rejection::PayloadShape)
        },
        None => if !has_field(d, key) || null_field(d, key) {
            Ok(None)
        } else {
            Err(Rejection::PayloadShape)
        },
    }
}

/// Reads a claimed event's payload into its kind's typed record and names the
/// write to make. `PayloadShape` exactly when a field has the wrong type.
pub fn dispatch(event: &Event) -> (r: Result<StoreWrite, Rejection>)
    ensures
        r is Ok == payload_ok(*event),
        r matches Ok(w) ==> write_for(*event, w),
        r matches Err(x) ==> x == Rejection::PayloadShape,
{
    let d = &event.event_data;
    let ts = event.event_timestamp;
    match event.event_type {
        EventType::Registration => {
            let user_id = str_field(d, "user_id");
            let country = str_field(d, "country");
            let device_os = str_field(d, "device_os");
            match (user_id, country, device_os) {
                (Some(user_id), Some(country), Some(device_os)) => Ok(
                    StoreWrite::Registration(RegistrationData { country, user_id, device_os }, ts),
                ),
                _ => Err(Rejection::PayloadShape),
            }
        },
        EventType::SessionPing => {
            let user_id = match str_field(d, "user_id") {
                Some(u) => u,
                None => return Err(Rejection::PayloadShape),
            };
            let session_type = opt_string_field(d, "session_type")?;
            Ok(StoreWrite::SessionPing(SessionPingData { user_id, session_type }, ts))
        },
        EventType::Match => {
            let match_id = str_field(d, "match_id");
            let home_user_id = str_field(d, "home_user_id");
            let away_user_id = str_field(d, "away_user_id");
            match (match_id, home_user_id, away_user_id) {
                (Some(match_id), Some(home_user_id), Some(away_user_id)) => {
                    let home_goals_scored = opt_i32_field(d, "home_goals_scored")?;
                    let away_goals_scored = opt_i32_field(d, "away_goals_scored")?;
                    Ok(
                        StoreWrite::Match(
                            MatchData {
                                match_id,
                                home_user_id,
                                away_user_id,
                                home_goals_scored,
                                away_goals_scored,
                            },
                            ts,
                        ),
                    )
                },
                _ => Err(Rejection::PayloadShape),
            }
        },
    }
}

} // verus!
