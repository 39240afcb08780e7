use user_service::errors::MyError;
use user_service::handlers::{add_user, get_users, index, reject_malformed, respond_insert,
    respond_list, user_from_rows};
use user_service::models::{NewUser, User, user_from_row};
use user_service::store::Store;

fn payload(tag: &str) -> NewUser {
    NewUser {
        email: format!("{tag}@example.com"),
        first_name: String::from("Ada"),
        last_name: String::from("Lovelace"),
        username: String::from(tag),
    }
}

#[test]
fn create_then_list_contains_the_new_entity() {
    let mut store = Store::new();
    let created = store.insert_user(payload("ada"));
    assert!(created.id >= 1);
    let listed = store.list_users();
    assert_eq!(listed.len(), 1);
    assert_eq!(listed[0].id, created.id);
    assert_eq!(listed[0].email, "ada@example.com");
    assert_eq!(listed[0].first_name, "Ada");
    assert_eq!(listed[0].last_name, "Lovelace");
    assert_eq!(listed[0].username, "ada");
}

#[test]
fn identical_payloads_make_two_distinct_entities() {
    let mut store = Store::new();
    let first = store.insert_user(payload("same"));
    let second = store.insert_user(payload("same"));
    assert_ne!(first.id, second.id);
    assert_eq!(first.email, second.email);
    assert_eq!(store.list_users().len(), 2);
}

#[test]
fn fifty_creates_yield_fifty_distinct_ids() {
    let mut store = Store::new();
    let mut ids: Vec<i64> = Vec::new();
    for k in 0..50 {
        let u = store.insert_user(payload(&format!("u{k}")));
        ids.push(u.id);
    }
    assert_eq!(store.list_users().len(), 50);
    for i in 0..ids.len() {
        for j in (i + 1)..ids.len() {
            assert_ne!(ids[i], ids[j]);
        }
    }
}

#[test]
fn list_on_empty_store_is_the_empty_json_array() {
    let store = Store::new();
    let r = get_users(&store, Ok(()));
    assert_eq!(r.status, 200);
    assert_eq!(r.body, "[]");
}

#[test]
fn malformed_create_is_rejected_and_persists_nothing() {
    let mut store = Store::new();
    let r = add_user(&mut store, Ok(()), None);
    assert_eq!(r.status, 400);
    let after = get_users(&store, Ok(()));
    assert_eq!(after.status, 200);
    assert_eq!(after.body, "[]");
}

#[test]
fn pool_failure_answers_500_and_the_service_stays_serviceable() {
    let mut store = Store::new();
    let r = add_user(&mut store, Err(String::from("pool timed out")), Some(payload("x")));
    assert_eq!(r.status, 500);
    assert_eq!(r.body, "pool timed out");
    let r2 = get_users(&store, Err(String::from("pool timed out")));
    assert_eq!(r2.status, 500);
    // The store kept nothing and a later request still succeeds.
    let r3 = add_user(&mut store, Ok(()), Some(payload("y")));
    assert_eq!(r3.status, 200);
    assert_eq!(store.list_users().len(), 1);
}

#[test]
fn index_lists_the_two_routes() {
    let r = index();
    assert_eq!(r.status, 200);
    assert_eq!(r.body, "GET /users/all\nor\nPOST /users/add");
}

#[test]
fn reject_malformed_is_a_bare_400() {
    let r = reject_malformed();
    assert_eq!(r.status, 400);
    assert_eq!(r.body, "");
}

#[test]
fn each_error_kind_maps_to_its_status() {
    let r = MyError::NotFound.error_response();
    assert_eq!(r.status, 404);
    assert_eq!(r.body, "");
    let r = MyError::PGError(String::from("syntax error")).error_response();
    assert_eq!(r.status, 500);
    assert_eq!(r.body, "");
    let r = MyError::PGMError(String::from("bad column")).error_response();
    assert_eq!(r.status, 500);
    assert_eq!(r.body, "");
    let r = MyError::PoolError(String::from("no connection")).error_response();
    assert_eq!(r.status, 500);
    assert_eq!(r.body, "no connection");
}

#[test]
fn zero_returned_rows_is_the_not_found_anomaly() {
    let r = user_from_rows(Vec::new());
    assert!(matches!(r, Err(MyError::NotFound)));
}

#[test]
fn the_last_returned_row_is_the_created_entity() {
    let rows = vec![
        user_from_row(1, String::from("a@x"), String::from("A"), String::from("B"), String::from("a")),
        user_from_row(2, String::from("b@x"), String::from("C"), String::from("D"), String::from("b")),
    ];
    let r = user_from_rows(rows).unwrap();
    assert_eq!(r.id, 2);
    assert_eq!(r.email, "b@x");
}

#[test]
fn respond_insert_serializes_the_created_entity() {
    let u = user_from_row(7, String::from("e@x"), String::from("F"), String::from("L"), String::from("u"));
    let r = respond_insert(Ok(u));
    assert_eq!(r.status, 200);
    assert_eq!(
        r.body,
        "{\"id\":7,\"email\":\"e@x\",\"first_name\":\"F\",\"last_name\":\"L\",\"username\":\"u\"}"
    );
}

#[test]
fn respond_insert_maps_failures() {
    let r = respond_insert(Err(MyError::PoolError(String::from("down"))));
    assert_eq!(r.status, 500);
    assert_eq!(r.body, "down");
    let r = respond_insert(Err(MyError::NotFound));
    assert_eq!(r.status, 404);
}

#[test]
fn respond_list_serializes_in_order() {
    let rows = vec![
        user_from_row(1, String::from("a@x"), String::from("A"), String::from("B"), String::from("a")),
        user_from_row(2, String::from("b@x"), String::from("C"), String::from("D"), String::from("b")),
    ];
    let r = respond_list(Ok(rows));
    assert_eq!(r.status, 200);
    assert!(r.body.starts_with("[{\"id\":1,"));
    assert!(r.body.contains("},{\"id\":2,"));
    assert!(r.body.ends_with("}]"));
}

#[test]
fn respond_list_maps_failures() {
    let r = respond_list(Err(MyError::PGError(String::from("boom"))));
    assert_eq!(r.status, 500);
    assert_eq!(r.body, "");
}

#[test]
fn created_entity_json_through_the_handler() {
    let mut store = Store::new();
    let r = add_user(&mut store, Ok(()), Some(payload("ada")));
    assert_eq!(r.status, 200);
    assert_eq!(
        r.body,
        "{\"id\":1,\"email\":\"ada@example.com\",\"first_name\":\"Ada\",\"last_name\":\"Lovelace\",\"username\":\"ada\"}"
    );
}

fn one_user(id: i64, email: &str) -> User {
    user_from_row(
        id,
        String::from(email),
        String::from("F"),
        String::from("L"),
        String::from("u"),
    )
}

#[test]
fn json_escapes_quotes_backslashes_and_controls() {
    let u = one_user(3, "a\"b\\c\nd\re\tf\u{1}g");
    let r = respond_insert(Ok(u));
    assert!(r.body.contains("\"email\":\"a\\\"b\\\\c\\nd\\re\\tf\\u0001g\""));
}

#[test]
fn json_handles_extreme_ids() {
    let r = respond_insert(Ok(one_user(i64::MIN, "m@x")));
    assert!(r.body.starts_with("{\"id\":-9223372036854775808,"));
    let r = respond_insert(Ok(one_user(0, "z@x")));
    assert!(r.body.starts_with("{\"id\":0,"));
    let r = respond_insert(Ok(one_user(i64::MAX, "p@x")));
    assert!(r.body.starts_with("{\"id\":9223372036854775807,"));
}
