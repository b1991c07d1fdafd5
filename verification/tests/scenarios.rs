//! End-to-end walks through the decision pipeline of whole requests, with
//! the store's answers played by hand.

use smt_backend::object_id::{encode_object_id, parse_object_id};
use smt_backend::pool::PoolManager;
use smt_backend::response::Response;
use smt_backend::store::{create_response, InsertResult, StoreResult};
use smt_backend::team::{collect_members, create_doc, member_candidates, Team};
use smt_backend::user::{LoginRequestBody, User};

const USER_HEX: &str = "0123456789abcdef01234567";
const TEAM_HEX: &str = "aaaaaaaaaaaaaaaaaaaaaaaa";

#[test]
fn team_create_then_member_listing() {
    // POST /api/team {name: "Pandora", users: [valid user id]}
    let member = parse_object_id(USER_HEX).unwrap();
    let request = Team {
        id: None,
        name: String::from("Pandora"),
        users: Some(vec![member.clone()]),
    };
    let ada = User {
        id: Some(member.clone()),
        name: String::from("Ada"),
        email: String::from("ada@example.org"),
    };

    // The gateway asks for one lookup per claimed member; the store finds it.
    let candidates = member_candidates(&request);
    assert_eq!(candidates, vec![member.clone()]);
    let doc = create_doc(request, &vec![StoreResult::Found(ada.clone())]).unwrap();
    assert_eq!(doc.users, Some(vec![member.clone()]));

    // The store inserts the document and assigns an identifier.
    let team_id = parse_object_id(TEAM_HEX).unwrap();
    let resp = create_response(doc, InsertResult::Inserted(team_id)).unwrap();
    assert_eq!(resp.status_code(), 201);
    let stored = resp.into_body();
    assert_eq!(encode_object_id(stored.id.as_ref().unwrap()), TEAM_HEX);
    assert_eq!(stored.name, "Pandora");
    assert_eq!(stored.users, Some(vec![member.clone()]));

    // GET /api/team/{id}/users: resolve each stored member.
    let to_resolve = member_candidates(&stored);
    assert_eq!(to_resolve, vec![member]);
    let users = collect_members(vec![StoreResult::Found(ada.clone())]).unwrap();
    assert_eq!(users, vec![ada]);
}

#[test]
fn team_fetch_wraps_the_stored_document() {
    let team_id = parse_object_id(TEAM_HEX).unwrap();
    let stored = Team { id: Some(team_id), name: String::from("Pandora"), users: None };
    let resp = smt_backend::store::fetch_response(StoreResult::Found(stored.clone())).unwrap();
    assert_eq!(resp, Response::Success(stored));
}

#[test]
fn the_pool_manager_is_stateless_with_a_fixed_capacity() {
    let m = PoolManager::new();
    assert_eq!(m.max_connections(), 16);
}

#[test]
fn a_login_body_carries_an_optional_email() {
    let body = LoginRequestBody { email: Some(String::from("ada@example.org")) };
    assert_eq!(body.email.as_deref(), Some("ada@example.org"));
    let empty = LoginRequestBody { email: None };
    assert_eq!(empty.email, None);
}
