//! The meeting repository's decision logic.
//!
//! A meeting records an actual duration, capped at the unsigned 16-bit
//! range, an optional link to the meeting configuration it was held
//! against, and the time of its occurrence in milliseconds since the Unix
//! epoch. A meeting is immutable once created; creation comes in two
//! forms, a full record or a bare configuration identifier.

use vstd::prelude::*;

use crate::object_id::{oid_str_valid, parse_oid_spec, parse_object_id, ObjectId};
use crate::response::ApiError;
use crate::store::Entity;

verus! {

/// The largest duration, in seconds, that a meeting may record.
pub open spec fn max_duration() -> int {
    65535
}

/// A meeting document. The identifier slot is empty until the store assigns
/// one.
#[derive(Debug, Clone, PartialEq)]
pub struct Meeting {
    pub id: Option<ObjectId>,
    /// Actual duration of the meeting in seconds.
    pub duration: Option<u16>,
    /// The meeting configuration this meeting was held against, if any.
    pub config_id: Option<ObjectId>,
    /// When the meeting started, in milliseconds since the Unix epoch.
    pub date_millis: i64,
}

impl Entity for Meeting {
    open spec fn spec_with_id(self, id: ObjectId) -> Meeting {
        Meeting { id: Some(id), ..self }
    }

    fn with_id(self, id: ObjectId) -> (r: Meeting) {
        Meeting { id: Some(id), duration: self.duration, config_id: self.config_id, date_millis: self.date_millis }
    }
}

/// Relies on chrono::Utc::now for the current wall-clock time; nothing is
/// assumed of the value it returns.
#[verifier::external_body]
fn current_millis() -> i64 {
    chrono::Utc::now().timestamp_millis()
}

impl Meeting {
    /// A fresh meeting: not yet persisted, zero duration, no configuration,
    /// stamped with the current time.
    pub fn new() -> (m: Meeting)
        ensures
            m.id is None,
            m.duration == Some(0u16),
            m.config_id is None,
    {
        Meeting { id: None, duration: Some(0), config_id: None, date_millis: current_millis() }
    }
}

/// Builds the document that creation against a configuration persists: a
/// fresh meeting linked to the given configuration, zero duration, stamped
/// with the current time.
pub fn for_config(config_id: ObjectId) -> (m: Meeting)
    ensures
        m.id is None,
        m.duration == Some(0u16),
        m.config_id == Some(config_id),
{
    let mut m = Meeting::new();
    m.config_id = Some(config_id);
    m
}

/// Decodes a full meeting record from its wire fields, for standalone
/// creation. A duration outside the unsigned 16-bit range, or a malformed
/// configuration identifier, is rejected at this boundary.
pub fn decode_meeting(duration: Option<i64>, config_hex: &Option<String>, date_millis: i64) -> (r:
    Result<Meeting, ApiError>)
    ensures
        match r {
            Ok(m) => {
                &&& m.id is None
                &&& match (duration, m.duration) {
                    (Some(d), Some(w)) => 0 <= d <= max_duration() && w == d,
                    (None, None) => true,
                    _ => false,
                }
                &&& match (*config_hex, m.config_id) {
                    (Some(s), Some(c)) => oid_str_valid(s@) && c@ == parse_oid_spec(s@),
                    (None, None) => true,
                    _ => false,
                }
                &&& m.date_millis == date_millis
            },
            Err(e) => {
                &&& e == ApiError::UnprocessableInput
                &&& ((duration matches Some(d) && !(0 <= d <= max_duration())) || (
                *config_hex matches Some(s) && !oid_str_valid(s@)))
            },
        },
{
    let dur: Option<u16> = match duration {
        Some(d) => {
            if d < 0 || d > 65535 {
                return Err(ApiError::UnprocessableInput);
            }
            Some(d as u16)
        },
        None => None,
    };
    let cfg: Option<ObjectId> = match config_hex {
        Some(s) => {
            match parse_object_id(s.as_str()) {
                Some(id) => Some(id),
                None => {
                    return Err(ApiError::UnprocessableInput);
                },
            }
        },
        None => None,
    };
    Ok(Meeting { id: None, duration: dur, config_id: cfg, date_millis })
}

} // verus!
