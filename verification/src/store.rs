//! The gateway's view of the document store.
//!
//! Every store call is performed outside this crate; its outcome comes back
//! as one of the recoverable results below, so that no single request's
//! store failure can abort the process. The generic functions here turn an
//! outcome into the response envelope, uniformly for every entity kind.

use vstd::prelude::*;

use crate::object_id::ObjectId;
use crate::response::{ApiError, ApiResult, Response};

verus! {

/// What a single point lookup (or a find-and-modify) reported: the document,
/// its absence, or an unexpected store failure.
#[derive(Debug)]
pub enum StoreResult<T> {
    Found(T),
    Missing,
    Failed,
}

/// What an insert reported: the identifier the store assigned, or an
/// unexpected store failure.
#[derive(Debug)]
pub enum InsertResult {
    Inserted(ObjectId),
    Failed,
}

/// An entity kind of the gateway: a document with a nullable identifier
/// slot that the store fills on insert.
pub trait Entity: Sized {
    /// The document with its identifier slot filled.
    spec fn spec_with_id(self, id: ObjectId) -> Self;

    /// Fills the identifier slot with the identifier the store assigned.
    fn with_id(self, id: ObjectId) -> (r: Self)
        ensures
            r == self.spec_with_id(id),
    ;
}

/// Classifies a point lookup of the request's target: the record is the
/// success payload, an absent record is `NotFound`, and a store failure is
/// `InternalFailure`. This finishes the get endpoints and the
/// find-and-update endpoints alike.
pub fn fetch_response<T>(found: StoreResult<T>) -> (r: ApiResult<T>)
    ensures
        match found {
            StoreResult::Found(v) => r == Ok::<Response<T>, ApiError>(Response::Success(v)),
            StoreResult::Missing => r == Err::<Response<T>, ApiError>(ApiError::NotFound),
            StoreResult::Failed => r == Err::<Response<T>, ApiError>(ApiError::InternalFailure),
        },
{
    match found {
        StoreResult::Found(v) => Ok(Response::Success(v)),
        StoreResult::Missing => Err(ApiError::NotFound),
        StoreResult::Failed => Err(ApiError::InternalFailure),
    }
}

/// Classifies a find-and-remove: the removed record is returned on the first
/// call, and a second call on the same target finds nothing and is a
/// `Conflict`.
pub fn delete_response<T>(found: StoreResult<T>) -> (r: ApiResult<T>)
    ensures
        match found {
            StoreResult::Found(v) => r == Ok::<Response<T>, ApiError>(Response::Success(v)),
            StoreResult::Missing => r == Err::<Response<T>, ApiError>(ApiError::Conflict),
            StoreResult::Failed => r == Err::<Response<T>, ApiError>(ApiError::InternalFailure),
        },
{
    match found {
        StoreResult::Found(v) => Ok(Response::Success(v)),
        StoreResult::Missing => Err(ApiError::Conflict),
        StoreResult::Failed => Err(ApiError::InternalFailure),
    }
}

/// Validates one claimed foreign reference from its point lookup: an absent
/// target is `NotFound` and nothing is written; a store failure is
/// `InternalFailure`.
pub fn exists_check<T>(lookup: StoreResult<T>) -> (r: Result<(), ApiError>)
    ensures
        match r {
            Ok(_) => lookup is Found,
            Err(e) => (e == ApiError::NotFound && lookup is Missing) || (
            e == ApiError::InternalFailure && lookup is Failed),
        },
{
    match lookup {
        StoreResult::Found(_) => Ok(()),
        StoreResult::Missing => Err(ApiError::NotFound),
        StoreResult::Failed => Err(ApiError::InternalFailure),
    }
}

/// Validates two claimed foreign references at once, as the user-time
/// endpoints do: a store failure on either lookup is `InternalFailure`,
/// and otherwise a miss on either is `NotFound`.
pub fn refs_check<A, B>(first: StoreResult<A>, second: StoreResult<B>) -> (r: Result<
    (),
    ApiError,
>)
    ensures
        match r {
            Ok(_) => first is Found && second is Found,
            Err(e) => match e {
                ApiError::InternalFailure => first is Failed || second is Failed,
                ApiError::NotFound => !(first is Failed) && !(second is Failed) && (first
                    is Missing || second is Missing),
                _ => false,
            },
        },
{
    match (&first, &second) {
        (StoreResult::Failed, _) => Err(ApiError::InternalFailure),
        (_, StoreResult::Failed) => Err(ApiError::InternalFailure),
        (StoreResult::Found(_), StoreResult::Found(_)) => Ok(()),
        _ => Err(ApiError::NotFound),
    }
}

/// Classifies an insert: on success the persisted document is returned with
/// the identifier the store assigned, as `Created`; a store failure is
/// `InternalFailure`.
pub fn create_response<T: Entity>(doc: T, insert: InsertResult) -> (r: ApiResult<T>)
    ensures
        match insert {
            InsertResult::Inserted(id) => r == Ok::<Response<T>, ApiError>(Response::Created(doc.spec_with_id(id))),
            InsertResult::Failed => r == Err::<Response<T>, ApiError>(ApiError::InternalFailure),
        },
{
    match insert {
        InsertResult::Inserted(id) => Ok(Response::Created(doc.with_id(id))),
        InsertResult::Failed => Err(ApiError::InternalFailure),
    }
}

} // verus!
