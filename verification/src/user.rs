//! The user repository's decision logic.
//!
//! A user is keyed by an identifier and carries a name and an email that is
//! meant to be unique across all users. Signup checks the email before the
//! insert; login is a lookup by email alone.

use vstd::prelude::*;

use crate::object_id::ObjectId;
use crate::response::{ApiError, ApiResult, Response};
use crate::store::{Entity, StoreResult};

verus! {

/// A user document. The identifier slot is empty until the store assigns
/// one.
#[derive(Debug, Clone, PartialEq)]
pub struct User {
    pub id: Option<ObjectId>,
    pub name: String,
    pub email: String,
}

/// The body of a login request: the claimed email, if any was sent.
#[derive(Debug, Clone, PartialEq)]
pub struct LoginRequestBody {
    pub email: Option<String>,
}

impl User {
    /// The identifier of a persisted user; a user that was never persisted
    /// has none.
    pub fn get_id(self) -> (r: ObjectId)
        requires
            self.id matches Some(_),
        ensures
            self.id matches Some(i) && r == i,
    {
        self.id.unwrap()
    }
}

impl Entity for User {
    open spec fn spec_with_id(self, id: ObjectId) -> User {
        User { id: Some(id), ..self }
    }

    fn with_id(self, id: ObjectId) -> (r: User) {
        User { id: Some(id), name: self.name, email: self.email }
    }
}

/// Classifies the login lookup by email: the user is returned on a hit, and
/// an absent email is `NotAuthorized`. No credential beyond the email is
/// checked.
pub fn login_finish(found: StoreResult<User>) -> (r: ApiResult<User>)
    ensures
        match found {
            StoreResult::Found(u) => r == Ok::<Response<User>, ApiError>(Response::Success(u)),
            StoreResult::Missing => r == Err::<Response<User>, ApiError>(ApiError::NotAuthorized),
            StoreResult::Failed => r == Err::<Response<User>, ApiError>(
                ApiError::InternalFailure,
            ),
        },
{
    match found {
        StoreResult::Found(u) => Ok(Response::Success(u)),
        StoreResult::Missing => Err(ApiError::NotAuthorized),
        StoreResult::Failed => Err(ApiError::InternalFailure),
    }
}

/// Decides a signup from the pre-insert email lookup: an already registered
/// email is a `Conflict` and nothing is inserted; otherwise the candidate
/// document is persisted unchanged.
pub fn signup_decide(user: User, email_check: StoreResult<User>) -> (r: Result<User, ApiError>)
    ensures
        match email_check {
            StoreResult::Found(_) => r == Err::<User, ApiError>(ApiError::Conflict),
            StoreResult::Missing => r == Ok::<User, ApiError>(user),
            StoreResult::Failed => r == Err::<User, ApiError>(ApiError::InternalFailure),
        },
{
    match email_check {
        StoreResult::Found(_) => Err(ApiError::Conflict),
        StoreResult::Missing => Ok(user),
        StoreResult::Failed => Err(ApiError::InternalFailure),
    }
}

/// What the name-only update leaves in the store: the stored document with
/// its name replaced and every other field kept.
pub fn with_name(stored: User, name: String) -> (r: User)
    ensures
        r.id == stored.id,
        r.name == name,
        r.email == stored.email,
{
    User { id: stored.id, name, email: stored.email }
}

} // verus!
