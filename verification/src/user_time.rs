//! The user-time repository's decision logic.
//!
//! A user-time entry records how many seconds a user contributed to a
//! meeting; the time is capped at the unsigned 16-bit range. Both
//! references arrive as external strings, are decoded, and must reference
//! an existing user and meeting before anything is written. Updates
//! replace both references and the time after the same validation; an
//! entry can be deleted.

use vstd::prelude::*;

use crate::meeting::Meeting;
use crate::object_id::{oid_str_valid, parse_oid_spec, parse_object_id, ObjectId};
use crate::response::ApiError;
use crate::store::{refs_check, Entity, StoreResult};
use crate::user::User;

verus! {

/// A user-time document. The identifier slot is empty until the store
/// assigns one; the references arrive as `user_id_str` and
/// `meeting_id_str` and are decoded before any write.
#[derive(Debug, Clone, PartialEq)]
pub struct UserTime {
    pub id: Option<ObjectId>,
    /// The contributing user, as a decoded identifier.
    pub user_id: Option<ObjectId>,
    /// The contributing user, as the external string the request carried.
    pub user_id_str: Option<String>,
    /// The meeting contributed to, as a decoded identifier.
    pub meeting_id: Option<ObjectId>,
    /// The meeting contributed to, as the external string the request
    /// carried.
    pub meeting_id_str: Option<String>,
    /// Contributed time in seconds.
    pub time: u16,
}

impl Entity for UserTime {
    open spec fn spec_with_id(self, id: ObjectId) -> UserTime {
        UserTime { id: Some(id), ..self }
    }

    fn with_id(self, id: ObjectId) -> (r: UserTime) {
        UserTime {
            id: Some(id),
            user_id: self.user_id,
            user_id_str: self.user_id_str,
            meeting_id: self.meeting_id,
            meeting_id_str: self.meeting_id_str,
            time: self.time,
        }
    }
}

/// Decodes a user-time record from its wire fields. A time outside the
/// unsigned 16-bit range is rejected at this boundary; the reference
/// strings are carried along and decoded by the write's plan.
pub fn decode_user_time(
    user_id_str: Option<String>,
    meeting_id_str: Option<String>,
    time: i64,
) -> (r: Result<UserTime, ApiError>)
    ensures
        match r {
            Ok(ut) => {
                &&& 0 <= time <= crate::meeting::max_duration()
                &&& ut.id is None
                &&& ut.user_id is None
                &&& ut.meeting_id is None
                &&& ut.user_id_str == user_id_str
                &&& ut.meeting_id_str == meeting_id_str
                &&& ut.time == time
            },
            Err(e) => e == ApiError::UnprocessableInput && !(0 <= time
                <= crate::meeting::max_duration()),
        },
{
    if time < 0 || time > 65535 {
        return Err(ApiError::UnprocessableInput);
    }
    Ok(UserTime {
        id: None,
        user_id: None,
        user_id_str,
        meeting_id: None,
        meeting_id_str,
        time: time as u16,
    })
}

/// Decodes the two claimed references of a write: both external strings
/// must be present and well-formed, else the request is rejected before
/// any store access.
pub fn decode_refs(ut: &UserTime) -> (r: Result<(ObjectId, ObjectId), ApiError>)
    ensures
        match r {
            Ok((uid, mid)) => {
                &&& ut.user_id_str matches Some(s) && oid_str_valid(s@) && uid@ == parse_oid_spec(
                    s@,
                )
                &&& ut.meeting_id_str matches Some(s) && oid_str_valid(s@) && mid@
                    == parse_oid_spec(s@)
            },
            Err(e) => {
                &&& e == ApiError::UnprocessableInput
                &&& (ut.user_id_str is None || ut.meeting_id_str is None || (
                ut.user_id_str matches Some(s) && !oid_str_valid(s@)) || (
                ut.meeting_id_str matches Some(s) && !oid_str_valid(s@)))
            },
        },
{
    let uid = match &ut.user_id_str {
        Some(s) => {
            match parse_object_id(s.as_str()) {
                Some(id) => id,
                None => {
                    return Err(ApiError::UnprocessableInput);
                },
            }
        },
        None => {
            return Err(ApiError::UnprocessableInput);
        },
    };
    let mid = match &ut.meeting_id_str {
        Some(s) => {
            match parse_object_id(s.as_str()) {
                Some(id) => id,
                None => {
                    return Err(ApiError::UnprocessableInput);
                },
            }
        },
        None => {
            return Err(ApiError::UnprocessableInput);
        },
    };
    Ok((uid, mid))
}

/// Decides a user-time create from the decoded references and their
/// lookups: the document to persist carries both decoded references; an
/// absent user or meeting is `NotFound` and nothing is persisted; a store
/// failure on either lookup is `InternalFailure`.
pub fn create_decide(
    ut: UserTime,
    user_id: ObjectId,
    meeting_id: ObjectId,
    user_lookup: StoreResult<User>,
    meeting_lookup: StoreResult<Meeting>,
) -> (r: Result<UserTime, ApiError>)
    ensures
        match r {
            Ok(doc) => {
                &&& user_lookup is Found && meeting_lookup is Found
                &&& doc.id == ut.id
                &&& doc.user_id == Some(user_id)
                &&& doc.user_id_str == ut.user_id_str
                &&& doc.meeting_id == Some(meeting_id)
                &&& doc.meeting_id_str == ut.meeting_id_str
                &&& doc.time == ut.time
            },
            Err(e) => match e {
                ApiError::InternalFailure => user_lookup is Failed || meeting_lookup is Failed,
                ApiError::NotFound => !(user_lookup is Failed) && !(meeting_lookup is Failed) && (
                user_lookup is Missing || meeting_lookup is Missing),
                _ => false,
            },
        },
{
    match refs_check(user_lookup, meeting_lookup) {
        Ok(_) => Ok(UserTime {
            id: ut.id,
            user_id: Some(user_id),
            user_id_str: ut.user_id_str,
            meeting_id: Some(meeting_id),
            meeting_id_str: ut.meeting_id_str,
            time: ut.time,
        }),
        Err(e) => Err(e),
    }
}

/// What the update leaves in the store: the stored entry with both
/// freshly validated references and the new time, its own identifier
/// kept.
pub fn apply_update(stored: UserTime, user_id: ObjectId, meeting_id: ObjectId, time: u16) -> (r:
    UserTime)
    ensures
        r.id == stored.id,
        r.user_id == Some(user_id),
        r.user_id_str == stored.user_id_str,
        r.meeting_id == Some(meeting_id),
        r.meeting_id_str == stored.meeting_id_str,
        r.time == time,
{
    UserTime {
        id: stored.id,
        user_id: Some(user_id),
        user_id_str: stored.user_id_str,
        meeting_id: Some(meeting_id),
        meeting_id_str: stored.meeting_id_str,
        time,
    }
}

} // verus!
