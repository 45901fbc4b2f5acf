//! The records that flow through the pipeline.
use vstd::prelude::*;

verus! {

/// The kind tag of an event, which selects its payload shape and its write.
#[derive(Debug, Clone, Copy, PartialEq, Eq, Structural)]
pub enum EventType {
    Registration,
    SessionPing,
    Match,
}

/// A decoded envelope: identifier, timestamp, kind and the still-untyped payload.
#[derive(Debug)]
pub struct Event {
    pub event_id: i32,
    pub event_timestamp: i64,
    pub event_type: EventType,
    pub event_data: serde_json::Value,
}

#[derive(Debug, Clone)]
pub struct RegistrationData {
    pub country: String,
    pub user_id: String,
    pub device_os: String,
}

#[derive(Debug, Clone)]
pub struct SessionPingData {
    pub user_id: String,
    pub session_type: Option<String>,
}

#[derive(Debug, Clone)]
pub struct MatchData {
    pub match_id: String,
    pub home_user_id: String,
    pub away_user_id: String,
    pub home_goals_scored: Option<i32>,
    pub away_goals_scored: Option<i32>,
}

/// Per-user aggregates, as the stats query returns them.
#[derive(Debug, Clone)]
pub struct UserLevelStats {
    pub country: String,
    pub registration_datetime: String,
    pub days_since_last_login: i64,
    pub session_count: i64,
    pub game_time: i64,
    pub match_points: i64,
    pub match_time_percentage: i64,
}

/// Why a line did not lead to a store write (other than being a duplicate).
#[derive(Debug, Clone, Copy, PartialEq, Eq, Structural)]
pub enum Rejection {
    /// The line is not a well-formed envelope.
    Decode,
    /// The payload lacks a field that its kind requires.
    Validation,
    /// A required payload field is present but of the wrong type.
    PayloadShape,
}

} // verus!
