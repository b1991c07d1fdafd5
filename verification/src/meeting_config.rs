//! The meeting-configuration repository's decision logic.
//!
//! A configuration belongs to a team; the claimed team identifier arrives
//! as an external string, is decoded, and must reference an existing team
//! before anything is written. Updates replace every field after the same
//! validation.

use vstd::prelude::*;

use crate::object_id::{oid_str_valid, parse_oid_spec, parse_object_id, ObjectId};
use crate::response::ApiError;
use crate::store::{exists_check, Entity, StoreResult};
use crate::team::Team;

verus! {

/// The kind of a recurring meeting.
#[derive(Debug, Clone, Copy, PartialEq, Eq, Structural)]
pub enum MeetingType {
    RETRO,
    DAILY,
}

/// The wire name of each meeting kind.
pub open spec fn meeting_type_str(t: MeetingType) -> Seq<char> {
    match t {
        MeetingType::DAILY => "DAILY"@,
        MeetingType::RETRO => "RETRO"@,
    }
}

impl MeetingType {
    /// The wire name of this meeting kind.
    pub fn value(&self) -> (r: &'static str)
        ensures
            r@ == meeting_type_str(*self),
    {
        match self {
            MeetingType::DAILY => "DAILY",
            MeetingType::RETRO => "RETRO",
        }
    }
}

/// Whether a string names a meeting kind.
pub open spec fn valid_meeting_type(s: Seq<char>) -> bool {
    s == "DAILY"@ || s == "RETRO"@
}

/// A meeting-configuration document. The identifier slot is empty until
/// the store assigns one; the team reference arrives as `team_id_str` and
/// is decoded into `team_id` before any write.
#[derive(Debug, Clone, PartialEq)]
pub struct MeetingConfig {
    pub id: Option<ObjectId>,
    /// The owning team, as a decoded identifier.
    pub team_id: Option<ObjectId>,
    /// The owning team, as the external string the request carried.
    pub team_id_str: Option<String>,
    /// How many seconds the meeting should last at most.
    pub desired_duration: i64,
    /// Display name of the meeting.
    pub meeting_name: String,
    /// Free-text description.
    pub description: String,
    /// The meeting kind's wire name.
    pub meeting_type: String,
}

impl Entity for MeetingConfig {
    open spec fn spec_with_id(self, id: ObjectId) -> MeetingConfig {
        MeetingConfig { id: Some(id), ..self }
    }

    fn with_id(self, id: ObjectId) -> (r: MeetingConfig) {
        MeetingConfig {
            id: Some(id),
            team_id: self.team_id,
            team_id_str: self.team_id_str,
            desired_duration: self.desired_duration,
            meeting_name: self.meeting_name,
            description: self.description,
            meeting_type: self.meeting_type,
        }
    }
}

/// Whether a configuration's plain fields lie in their domains: a
/// non-negative desired duration and a known meeting kind.
pub open spec fn config_fields_valid(cfg: MeetingConfig) -> bool {
    cfg.desired_duration >= 0 && valid_meeting_type(cfg.meeting_type@)
}

/// The configuration with its decoded team reference filled in: what a
/// create persists once the team is validated.
pub open spec fn with_team(cfg: MeetingConfig, team_id: ObjectId) -> MeetingConfig {
    MeetingConfig { team_id: Some(team_id), ..cfg }
}

/// Plans a configuration write: checks the plain fields and decodes the
/// claimed team reference. A missing or malformed team identifier, an
/// out-of-range duration or an unknown meeting kind is rejected here,
/// before any store access.
pub fn plan(cfg: &MeetingConfig) -> (r: Result<ObjectId, ApiError>)
    ensures
        match r {
            Ok(id) => {
                &&& config_fields_valid(*cfg)
                &&& cfg.team_id_str matches Some(s) && oid_str_valid(s@) && id@ == parse_oid_spec(
                    s@,
                )
            },
            Err(e) => {
                &&& e == ApiError::UnprocessableInput
                &&& (!config_fields_valid(*cfg) || cfg.team_id_str is None || (
                cfg.team_id_str matches Some(s) && !oid_str_valid(s@)))
            },
        },
{
    if cfg.desired_duration < 0 {
        return Err(ApiError::UnprocessableInput);
    }
    let daily = String::from_str("DAILY");
    let retro = String::from_str("RETRO");
    if !(cfg.meeting_type == daily || cfg.meeting_type == retro) {
        return Err(ApiError::UnprocessableInput);
    }
    match &cfg.team_id_str {
        Some(s) => {
            match parse_object_id(s.as_str()) {
                Some(id) => Ok(id),
                None => Err(ApiError::UnprocessableInput),
            }
        },
        None => Err(ApiError::UnprocessableInput),
    }
}

/// Decides a configuration create from the planned team reference and its
/// lookup: an absent team is `NotFound` and nothing is persisted;
/// otherwise the document to persist is the request with its decoded team
/// reference filled in.
pub fn create_decide(cfg: MeetingConfig, team_id: ObjectId, team_lookup: StoreResult<Team>) -> (r:
    Result<MeetingConfig, ApiError>)
    ensures
        match r {
            Ok(doc) => team_lookup is Found && doc == with_team(cfg, team_id),
            Err(e) => (e == ApiError::NotFound && team_lookup is Missing) || (
            e == ApiError::InternalFailure && team_lookup is Failed),
        },
{
    match exists_check(team_lookup) {
        Ok(_) => Ok(MeetingConfig {
            id: cfg.id,
            team_id: Some(team_id),
            team_id_str: cfg.team_id_str,
            desired_duration: cfg.desired_duration,
            meeting_name: cfg.meeting_name,
            description: cfg.description,
            meeting_type: cfg.meeting_type,
        }),
        Err(e) => Err(e),
    }
}

/// What the full-replace update leaves in the store: the stored document
/// with the request's fields and the freshly validated team reference, its
/// own identifier kept.
pub fn apply_update(stored: MeetingConfig, new: MeetingConfig, team_id: ObjectId) -> (r:
    MeetingConfig)
    ensures
        r.id == stored.id,
        r.team_id == Some(team_id),
        r.team_id_str == stored.team_id_str,
        r.desired_duration == new.desired_duration,
        r.meeting_name == new.meeting_name,
        r.description == new.description,
        r.meeting_type == new.meeting_type,
{
    MeetingConfig {
        id: stored.id,
        team_id: Some(team_id),
        team_id_str: stored.team_id_str,
        desired_duration: new.desired_duration,
        meeting_name: new.meeting_name,
        description: new.description,
        meeting_type: new.meeting_type,
    }
}

} // verus!
