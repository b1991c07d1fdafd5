use smt_backend::object_id::{encode_object_id, parse_object_id, ObjectId};
use smt_backend::response::ApiError;
use smt_backend::store::StoreResult;
use smt_backend::team::{collect_members, create_doc, filter_members, member_candidates, with_name, Team};
use smt_backend::user::User;

fn oid(s: &str) -> ObjectId {
    parse_object_id(s).unwrap()
}

fn user(name: &str) -> User {
    User { id: None, name: String::from(name), email: format!("{}@example.org", name) }
}

#[test]
fn members_that_do_not_exist_are_dropped_and_duplicates_kept_once() {
    let a = oid("aaaaaaaaaaaaaaaaaaaaaaaa");
    let b = oid("bbbbbbbbbbbbbbbbbbbbbbbb");
    let c = oid("cccccccccccccccccccccccc");
    let provided = vec![a.clone(), b.clone(), a.clone(), c.clone()];
    let lookups = vec![
        StoreResult::Found(user("a")),
        StoreResult::Missing,
        StoreResult::Found(user("a")),
        StoreResult::Found(user("c")),
    ];
    let kept = filter_members(&provided, &lookups).unwrap();
    assert_eq!(kept, vec![a, c]);
}

#[test]
fn a_failed_member_lookup_fails_the_whole_create() {
    let a = oid("aaaaaaaaaaaaaaaaaaaaaaaa");
    let provided = vec![a.clone(), a];
    let lookups = vec![StoreResult::Found(user("a")), StoreResult::Failed];
    assert_eq!(filter_members(&provided, &lookups).unwrap_err(), ApiError::InternalFailure);
}

#[test]
fn a_create_without_a_member_list_stores_none() {
    let team = Team { id: None, name: String::from("Pandora"), users: None };
    let doc = create_doc(team, &Vec::new()).unwrap();
    assert_eq!(doc.users, None);
    assert_eq!(doc.name, "Pandora");
}

#[test]
fn member_candidates_of_a_listless_team_are_empty() {
    let team = Team { id: None, name: String::from("Pandora"), users: None };
    assert!(member_candidates(&team).is_empty());
}

#[test]
fn member_candidates_mirror_the_claimed_list() {
    let a = oid("aaaaaaaaaaaaaaaaaaaaaaaa");
    let b = oid("bbbbbbbbbbbbbbbbbbbbbbbb");
    let team = Team {
        id: None,
        name: String::from("Pandora"),
        users: Some(vec![a.clone(), b.clone()]),
    };
    assert_eq!(member_candidates(&team), vec![a, b]);
}

#[test]
fn team_rename_replaces_only_the_name() {
    let a = oid("aaaaaaaaaaaaaaaaaaaaaaaa");
    let stored = Team {
        id: Some(oid("cccccccccccccccccccccccc")),
        name: String::from("Pandora"),
        users: Some(vec![a.clone()]),
    };
    let renamed = with_name(stored, String::from("Box"));
    assert_eq!(renamed.name, "Box");
    assert_eq!(encode_object_id(renamed.id.as_ref().unwrap()), "cccccccccccccccccccccccc");
    assert_eq!(renamed.users, Some(vec![a]));
}

#[test]
fn member_resolution_returns_all_users_in_order() {
    let lookups = vec![
        StoreResult::Found(user("first")),
        StoreResult::Found(user("second")),
    ];
    let users = collect_members(lookups).unwrap();
    assert_eq!(users.len(), 2);
    assert_eq!(users[0].name, "first");
    assert_eq!(users[1].name, "second");
}

#[test]
fn a_member_that_fails_to_resolve_fails_the_whole_listing() {
    let lookups = vec![StoreResult::Found(user("first")), StoreResult::Missing];
    assert_eq!(collect_members(lookups).unwrap_err(), ApiError::InternalFailure);
    let lookups = vec![StoreResult::Failed, StoreResult::Found(user("first"))];
    assert_eq!(collect_members(lookups).unwrap_err(), ApiError::InternalFailure);
}
