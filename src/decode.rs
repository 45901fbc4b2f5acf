//! From one line of text to a checked envelope.
use vstd::prelude::*;
use crate::json::{doc_field, doc_ints, doc_keys, doc_strs, int_field, parse_document, parsed, str_field, sub_document};
use crate::models::{Event, EventType, Rejection};
use crate::validation::{fields_present, is_valid_event, valid_event};

verus! {

/// The kind named by a tag; a session ping is written `session_ping` or
/// `sessionping`.
pub open spec fn kind_of_tag(t: Seq<char>) -> Option<EventType> {
    if t == "registration"@ {
        Some(EventType::Registration)
    } else if t == "session_ping"@ || t == "sessionping"@ {
        Some(EventType::SessionPing)
    } else if t == "match"@ {
        Some(EventType::Match)
    } else {
        None
    }
}

/// The document carries the four envelope fields with usable values: an
/// identifier that fits in `i32`, an integer timestamp, a known kind tag and a
/// payload.
pub open spec fn decodable(doc: serde_json::Value) -> bool {
    &&& doc_ints(doc).contains_key("event_id"@)
    &&& i32::MIN <= doc_ints(doc)["event_id"@] <= i32::MAX
    &&& doc_ints(doc).contains_key("event_timestamp"@)
    &&& doc_strs(doc).contains_key("kind"@)
    &&& kind_of_tag(doc_strs(doc)["kind"@]) is Some
    &&& doc_keys(doc).contains("payload"@)
}

/// `e` holds the identifier, timestamp and kind that `doc` carries.
pub open spec fn envelope_of(doc: serde_json::Value, e: Event) -> bool {
    &&& e.event_id as int == doc_ints(doc)["event_id"@]
    &&& e.event_timestamp as int == doc_ints(doc)["event_timestamp"@]
    &&& kind_of_tag(doc_strs(doc)["kind"@]) == Some(e.event_type)
    &&& e.event_data == doc_field(doc, "payload"@)
}

/// `r` is what screening the document `doc` owes: `Decode` when the envelope
/// is unusable; else the envelope when its payload has every field its kind
/// requires, and `Validation` when it does not.
pub open spec fn screened_as(doc: serde_json::Value, r: Result<Event, Rejection>) -> bool {
    if !decodable(doc) {
        r == Err::<Event, Rejection>(Rejection::Decode)
    } else {
        match kind_of_tag(doc_strs(doc)["kind"@]) {
            Some(k) => if fields_present(k, doc_field(doc, "payload"@)) {
                r matches Ok(e) && envelope_of(doc, e)
            } else {
                r == Err::<Event, Rejection>(Rejection::Validation)
            },
            None => false,
        }
    }
}

/// `r` is what screening the line `s` owes: `Decode` when it does not parse,
/// else what screening its document owes.
pub open spec fn line_screened(s: Seq<char>, r: Result<Event, Rejection>) -> bool {
    match parsed(s) {
        None => r == Err::<Event, Rejection>(Rejection::Decode),
        Some(doc) => screened_as(doc, r),
    }
}

fn kind_from_tag(t: &String) -> (r: Option<EventType>)
    ensures
        r == kind_of_tag(t@),
{
    if *t == "registration".to_owned() {
        Some(EventType::Registration)
    } else if *t == "session_ping".to_owned() || *t == "sessionping".to_owned() {
        Some(EventType::SessionPing)
    } else if *t == "match".to_owned() {
        Some(EventType::Match)
    } else {
        None
    }
}

/// Reads the envelope out of a parsed document; `Decode` exactly when one of
/// the four envelope fields is missing or unusable.
pub fn decode_document(doc: &serde_json::Value) -> (r: Result<Event, Rejection>)
    ensures
        r is Ok == decodable(*doc),
        r matches Ok(e) ==> envelope_of(*doc, e),
        r matches Err(x) ==> x == Rejection::Decode,
{
    let id = match int_field(doc, "event_id") {
        Some(v) => v,
        None => return Err(Rejection::Decode),
    };
    if id < i32::MIN as i64 || id > i32::MAX as i64 {
        return Err(Rejection::Decode);
    }
    let ts = match int_field(doc, "event_timestamp") {
        Some(v) => v,
        None => return Err(Rejection::Decode),
    };
    let kind = match str_field(doc, "kind") {
        Some(t) => match kind_from_tag(&t) {
            Some(k) => k,
            None => return Err(Rejection::Decode),
        },
        None => return Err(Rejection::Decode),
    };
    let payload = match sub_document(doc, "payload") {
        Some(p) => p,
        None => return Err(Rejection::Decode),
    };
    Ok(Event { event_id: id as i32, event_timestamp: ts, event_type: kind, event_data: payload })
}

/// Decodes a parsed document and checks its payload: `Decode` when the
/// envelope is unusable, else `Validation` when a required field is missing.
pub fn screen_document(doc: &serde_json::Value) -> (r: Result<Event, Rejection>)
    ensures
        screened_as(*doc, r),
        r matches Ok(e) ==> valid_event(e),
{
    match decode_document(doc) {
        Ok(e) => if is_valid_event(&e) {
            Ok(e)
        } else {
            Err(Rejection::Validation)
        },
        Err(x) => Err(x),
    }
}

/// Decodes and checks one line of the log. Text that does not parse is a
/// `Decode` rejection; otherwise the parsed document is screened as by
/// `screen_document`.
pub fn screen_line(line: &str) -> (r: Result<Event, Rejection>)
    ensures
        line_screened(line@, r),
        r matches Ok(e) ==> valid_event(e),
        r matches Err(x) ==> x == Rejection::Decode || x == Rejection::Validation,
{
    match parse_document(line) {
        Some(doc) => screen_document(&doc),
        None => Err(Rejection::Decode),
    }
}

} // verus!
