use rusqlite::Connection;

use urlshort::id::Id;
use urlshort::routes::{create, create_using, create_with_id, init_config, not_found, retrieve};
use urlshort::store::init_db;
use urlshort::url::Url;
use urlshort::url::Data;

fn fresh_store() -> Connection {
    let mut conn = Connection::open_in_memory().expect("in memory db");
    init_db(&mut conn).expect("schema and seed");
    conn
}

fn admitted(raw: &str) -> Data {
    Data { url: Url::from_form_value(raw).expect("admissible URL") }
}

fn segment(s: &str) -> Id {
    Id::from_segment(String::from(s)).expect("admissible segment")
}

#[test]
fn seed_retrieve() {
    let conn = fresh_store();
    let target = retrieve(&segment("rust"), &conn).expect("seed record present");
    assert_eq!(target, "https://www.rust-lang.org/");
}

#[test]
fn unknown_id_is_a_miss() {
    let conn = fresh_store();
    assert!(retrieve(&segment("zzz"), &conn).is_none());
}

#[test]
fn catch_all_body_names_the_request_uri() {
    assert_eq!(not_found("/zzz"), "No url found for /zzz");
    assert_eq!(not_found("/"), "No url found for /");
}

#[test]
fn invalid_segment_never_reaches_the_store() {
    assert!(Id::from_segment(String::from("AbC")).is_err());
}

#[test]
fn create_happy_path() {
    let mut conn = fresh_store();
    let config = init_config(None, None);
    assert_eq!(config.address, "http://localhost:8000");
    assert_eq!(config.id_length, 5);

    let form = admitted("https%3A%2F%2Fexample.com%2F");
    let created = create(&form, &mut conn, &config).expect("201 Created");
    assert_eq!(created.body, "https://example.com/");

    let prefix = "http://localhost:8000/";
    assert!(created.location.starts_with(prefix));
    let id_text = &created.location[prefix.len()..];
    assert_eq!(id_text.chars().count(), 5);
    for c in id_text.chars() {
        assert!(c.is_ascii_digit() || c.is_ascii_lowercase());
    }

    let target = retrieve(&segment(id_text), &conn).expect("round trip");
    assert_eq!(target, "https://example.com/");
}

#[test]
fn repeated_reads_are_identical() {
    let conn = fresh_store();
    let first = retrieve(&segment("rust"), &conn);
    let second = retrieve(&segment("rust"), &conn);
    assert_eq!(first, second);
    let miss1 = retrieve(&segment("zzz"), &conn);
    let miss2 = retrieve(&segment("zzz"), &conn);
    assert_eq!(miss1, miss2);
}

#[test]
fn collision_simulation_on_the_seed() {
    let mut conn = fresh_store();
    let config = init_config(None, None);
    let form = admitted("https%3A%2F%2Fexample.org");
    let err = create_using(&segment("rust"), &form, &mut conn, &config)
        .expect_err("seed id is taken");
    assert_eq!(err, "id already exist");
    let target = retrieve(&segment("rust"), &conn).expect("seed record intact");
    assert_eq!(target, "https://www.rust-lang.org/");
}

#[test]
fn second_create_under_the_same_id_fails_and_keeps_the_first() {
    let mut conn = fresh_store();
    let config = init_config(None, None);
    let id = segment("fixed");
    let first = admitted("https://first.example/");
    let second = admitted("https://second.example/");

    create_using(&id, &first, &mut conn, &config).expect("id is free");
    let err = create_using(&id, &second, &mut conn, &config).expect_err("id is taken now");
    assert_eq!(err, "id already exist");
    let target = retrieve(&segment("fixed"), &conn).expect("first mapping intact");
    assert_eq!(target, "https://first.example/");
}

#[test]
fn failed_insert_reports_cannot_create_id() {
    let mut conn = Connection::open_in_memory().expect("in memory db");
    conn.execute(
        "CREATE TABLE urls (id TEXT PRIMARY KEY, url TEXT NOT NULL CHECK(length(url) < 5))",
        (),
    )
    .expect("constrained table");
    let config = init_config(None, None);
    let form = admitted("https://example.com/");
    let err = create_using(&segment("abcde"), &form, &mut conn, &config)
        .expect_err("the check constraint fails the insert");
    assert_eq!(err, "cannot create id");
}

#[test]
fn configuration_defaults_and_overrides() {
    let config = init_config(Some(String::from("https://short.example")), Some(3));
    assert_eq!(config.address, "https://short.example");
    assert_eq!(config.id_length, 3);
    let config = init_config(None, Some(64));
    assert_eq!(config.address, "http://localhost:8000");
    assert_eq!(config.id_length, 64);
    let config = init_config(None, Some(-1));
    assert_eq!(config.id_length, (-1i64) as usize);
}

#[test]
fn user_chosen_identifiers_are_still_a_stub() {
    let id = segment("mine");
    let form = admitted("https://example.com/");
    assert_eq!(create_with_id(&id, &form), "another unimplemented");
}
