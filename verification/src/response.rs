//! The response envelope: a closed set of outcome kinds, each mapped to one
//! HTTP status code.

use vstd::prelude::*;

verus! {

/// Error outcomes of the gateway. Every failing operation is classified as
/// exactly one of these; none of them aborts the process.
#[derive(Clone, Copy, Debug, PartialEq, Eq, Structural)]
pub enum ApiError {
    /// A login lookup found no user.
    NotAuthorized,
    /// A uniqueness violation, or a delete whose target was already gone.
    Conflict,
    /// The target entity, or a referenced entity, is absent.
    NotFound,
    /// A malformed identifier or an out-of-range field.
    UnprocessableInput,
    /// The store reported an unexpected failure.
    InternalFailure,
}

/// The HTTP status that each error kind is reported with.
pub open spec fn error_status(e: ApiError) -> int {
    match e {
        ApiError::NotAuthorized => 401,
        ApiError::Conflict => 409,
        ApiError::NotFound => 404,
        ApiError::UnprocessableInput => 422,
        ApiError::InternalFailure => 500,
    }
}

impl ApiError {
    pub fn status_code(&self) -> (c: u16)
        ensures
            c == error_status(*self),
    {
        match self {
            ApiError::NotAuthorized => 401,
            ApiError::Conflict => 409,
            ApiError::NotFound => 404,
            ApiError::UnprocessableInput => 422,
            ApiError::InternalFailure => 500,
        }
    }
}

/// Success envelope: the affected entity together with its status
/// classification.
#[derive(Debug, PartialEq)]
pub enum Response<T> {
    /// The operation found or changed an existing entity.
    Success(T),
    /// The operation persisted a new entity.
    Created(T),
}

/// The HTTP status that each success kind is reported with.
pub open spec fn response_status<T>(r: Response<T>) -> int {
    match r {
        Response::Success(_) => 200,
        Response::Created(_) => 201,
    }
}

impl<T> Response<T> {
    pub fn status_code(&self) -> (c: u16)
        ensures
            c == response_status(*self),
    {
        match self {
            Response::Success(_) => 200,
            Response::Created(_) => 201,
        }
    }

    /// The enclosed entity.
    pub fn into_body(self) -> (t: T)
        ensures
            match self {
                Response::Success(v) => t == v,
                Response::Created(v) => t == v,
            },
    {
        match self {
            Response::Success(v) => v,
            Response::Created(v) => v,
        }
    }
}

/// What every endpoint hands back: a success envelope or one error kind.
pub type ApiResult<T> = Result<Response<T>, ApiError>;

} // verus!
