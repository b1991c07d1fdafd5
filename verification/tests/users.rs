use smt_backend::object_id::parse_object_id;
use smt_backend::response::{ApiError, Response};
use smt_backend::store::{create_response, delete_response, fetch_response, InsertResult, StoreResult};
use smt_backend::user::{login_finish, signup_decide, with_name, User};
use smt_backend::user_time::UserTime;

fn sample_user() -> User {
    User { id: None, name: String::from("Ada"), email: String::from("ada@example.org") }
}

#[test]
fn login_hit_returns_the_user() {
    let u = sample_user();
    let r = login_finish(StoreResult::Found(u.clone())).unwrap();
    assert_eq!(r, Response::Success(u));
    assert_eq!(Response::Success(()).status_code(), 200);
}

#[test]
fn login_miss_is_not_authorized() {
    assert_eq!(login_finish(StoreResult::Missing).unwrap_err(), ApiError::NotAuthorized);
}

#[test]
fn login_store_failure_is_internal() {
    assert_eq!(login_finish(StoreResult::Failed).unwrap_err(), ApiError::InternalFailure);
}

#[test]
fn signup_of_a_fresh_email_creates_the_user() {
    let u = sample_user();
    let doc = signup_decide(u.clone(), StoreResult::Missing).unwrap();
    assert_eq!(doc, u);
    let id = parse_object_id("0123456789abcdef01234567").unwrap();
    let resp = create_response(doc, InsertResult::Inserted(id.clone())).unwrap();
    assert_eq!(resp.status_code(), 201);
    let stored = resp.into_body();
    assert_eq!(stored.id, Some(id));
    assert_eq!(stored.name, "Ada");
    assert_eq!(stored.email, "ada@example.org");
}

#[test]
fn signup_of_a_registered_email_is_a_conflict() {
    let existing = sample_user();
    let second = User { id: None, name: String::from("Imposter"), email: existing.email.clone() };
    let e = signup_decide(second, StoreResult::Found(existing)).unwrap_err();
    assert_eq!(e, ApiError::Conflict);
    assert_eq!(e.status_code(), 409);
}

#[test]
fn signup_insert_failure_is_internal() {
    let u = sample_user();
    let doc = signup_decide(u, StoreResult::Missing).unwrap();
    assert_eq!(create_response(doc, InsertResult::Failed).unwrap_err(), ApiError::InternalFailure);
}

#[test]
fn get_miss_is_not_found() {
    assert_eq!(
        fetch_response::<User>(StoreResult::Missing).unwrap_err(),
        ApiError::NotFound
    );
}

#[test]
fn name_update_replaces_only_the_name() {
    let id = parse_object_id("aaaaaaaaaaaaaaaaaaaaaaaa").unwrap();
    let stored = User {
        id: Some(id.clone()),
        name: String::from("Ada"),
        email: String::from("ada@example.org"),
    };
    let renamed = with_name(stored, String::from("Ada L."));
    assert_eq!(renamed.id, Some(id));
    assert_eq!(renamed.name, "Ada L.");
    assert_eq!(renamed.email, "ada@example.org");
}

#[test]
fn get_id_of_a_persisted_user() {
    let id = parse_object_id("aaaaaaaaaaaaaaaaaaaaaaaa").unwrap();
    let u = User { id: Some(id.clone()), name: String::new(), email: String::new() };
    assert_eq!(u.get_id(), id);
}

#[test]
fn deleting_a_user_time_twice_conflicts_the_second_time() {
    let entry = UserTime {
        id: None,
        user_id: None,
        user_id_str: Some(String::from("0123456789abcdef01234567")),
        meeting_id: None,
        meeting_id_str: Some(String::from("aaaaaaaaaaaaaaaaaaaaaaaa")),
        time: 30,
    };
    // First find-and-remove returns the record.
    let first = delete_response(StoreResult::Found(entry.clone())).unwrap();
    assert_eq!(first, Response::Success(entry));
    // The second finds nothing: a conflict.
    let second = delete_response::<UserTime>(StoreResult::Missing).unwrap_err();
    assert_eq!(second, ApiError::Conflict);
    assert_eq!(second.status_code(), 409);
}

#[test]
fn delete_store_failure_is_internal() {
    assert_eq!(delete_response::<User>(StoreResult::Failed).unwrap_err(), ApiError::InternalFailure);
}
