use smt_backend::response::{ApiError, Response};

#[test]
fn each_error_kind_has_its_status() {
    assert_eq!(ApiError::NotAuthorized.status_code(), 401);
    assert_eq!(ApiError::Conflict.status_code(), 409);
    assert_eq!(ApiError::NotFound.status_code(), 404);
    assert_eq!(ApiError::UnprocessableInput.status_code(), 422);
    assert_eq!(ApiError::InternalFailure.status_code(), 500);
}

#[test]
fn each_success_kind_has_its_status() {
    assert_eq!(Response::Success(7u32).status_code(), 200);
    assert_eq!(Response::Created(7u32).status_code(), 201);
}

#[test]
fn the_envelope_carries_its_body() {
    assert_eq!(Response::Success(String::from("a")).into_body(), "a");
    assert_eq!(Response::Created(String::from("b")).into_body(), "b");
}
