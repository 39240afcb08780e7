//! The produced bodies are real JSON, and the shape validation accepts and
//! rejects the right bodies: checked against an independent JSON parser.

use user_service::handlers::respond_list;
use user_service::models::user_from_row;
use user_service::sql::{add_user_sql, get_users_sql};
use user_service::validate::new_user_of_fields;

#[test]
fn list_body_parses_as_json_with_the_same_fields() {
    let rows = vec![
        user_from_row(
            1,
            String::from("a\"quote@x"),
            String::from("Fi\\rst"),
            String::from("La\nst"),
            String::from("u1"),
        ),
        user_from_row(2, String::from("b@x"), String::from("C"), String::from("D"), String::from("u2")),
    ];
    let r = respond_list(Ok(rows));
    let v: serde_json::Value = serde_json::from_str(&r.body).unwrap();
    let arr = v.as_array().unwrap();
    assert_eq!(arr.len(), 2);
    assert_eq!(arr[0]["id"].as_i64().unwrap(), 1);
    assert_eq!(arr[0]["email"].as_str().unwrap(), "a\"quote@x");
    assert_eq!(arr[0]["first_name"].as_str().unwrap(), "Fi\\rst");
    assert_eq!(arr[0]["last_name"].as_str().unwrap(), "La\nst");
    assert_eq!(arr[1]["username"].as_str().unwrap(), "u2");
}

fn pairs(ps: &[(&str, &str)]) -> Vec<(String, String)> {
    ps.iter().map(|(k, v)| (String::from(*k), String::from(*v))).collect()
}

#[test]
fn all_four_fields_present_builds_the_create_shape() {
    let fs = pairs(&[
        ("username", "ada"),
        ("email", "ada@example.com"),
        ("first_name", "Ada"),
        ("last_name", "Lovelace"),
    ]);
    let nu = new_user_of_fields(&fs).unwrap();
    assert_eq!(nu.email, "ada@example.com");
    assert_eq!(nu.first_name, "Ada");
    assert_eq!(nu.last_name, "Lovelace");
    assert_eq!(nu.username, "ada");
}

#[test]
fn a_missing_required_field_rejects_the_body() {
    let fs = pairs(&[("email", "a@x"), ("first_name", "A"), ("last_name", "B")]);
    assert!(new_user_of_fields(&fs).is_none());
    let empty = pairs(&[]);
    assert!(new_user_of_fields(&empty).is_none());
}

#[test]
fn extra_fields_are_ignored_and_the_first_occurrence_wins() {
    let fs = pairs(&[
        ("note", "ignored"),
        ("email", "first@x"),
        ("email", "second@x"),
        ("first_name", "A"),
        ("last_name", "B"),
        ("username", "ab"),
    ]);
    let nu = new_user_of_fields(&fs).unwrap();
    assert_eq!(nu.email, "first@x");
}

#[test]
fn the_sql_statements_are_exactly_the_two_permitted_ones() {
    assert_eq!(
        add_user_sql(),
        "INSERT INTO users (email, first_name, last_name, username) VALUES ($1, $2, $3, $4) RETURNING id, email, first_name, last_name, username"
    );
    assert_eq!(get_users_sql(), "SELECT id, email, first_name, last_name, username FROM users");
}
