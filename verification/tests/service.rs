use items_api::config::load_config;
use items_api::config::parse_port;
use items_api::config::AppConfig;
use items_api::config::ConfigError;
use items_api::errors::ApiError;
use items_api::item::CreateItemRequest;
use items_api::item::Item;
use items_api::item::UpdateItemRequest;
use items_api::routes::root_message;
use items_api::store::ItemStore;

fn create(name: &str, description: Option<&str>) -> CreateItemRequest {
    CreateItemRequest { name: name.to_string(), description: description.map(|d| d.to_string()) }
}

#[test]
fn created_item_carries_fields_and_fresh_timestamps() {
    let mut store = ItemStore::new();
    let item = store.create_item(create("A", Some("B")), 100).unwrap();
    assert!(item.id > 0);
    assert_eq!(item.id, 1);
    assert_eq!(item.name, "A");
    assert_eq!(item.description.as_deref(), Some("B"));
    assert_eq!(item.created_at, item.updated_at);
}

#[test]
fn created_item_without_description_stores_none() {
    let mut store = ItemStore::new();
    let item = store.create_item(create("solo", None), 7).unwrap();
    assert_eq!(item.name, "solo");
    assert!(item.description.is_none());
}

#[test]
fn fetching_nonexistent_id_answers_not_found() {
    let mut store = ItemStore::new();
    store.create_item(create("A", None), 1).unwrap();
    assert!(store.get_item(999).is_none());
    let err = ApiError::NotFoundError;
    assert_eq!(err.status_code(), 404);
    assert_eq!(err.message(), "Resource not found");
}

#[test]
fn listing_returns_items_ordered_by_ascending_id() {
    let mut store = ItemStore::new();
    store.create_item(create("first", None), 10).unwrap();
    store.create_item(create("second", Some("two")), 20).unwrap();
    store.create_item(create("third", None), 30).unwrap();
    let rows = store.get_items();
    let ids: Vec<i32> = rows.iter().map(|row| row.id).collect();
    assert_eq!(ids, vec![1, 2, 3]);
    for window in rows.windows(2) {
        assert!(window[0].id < window[1].id);
    }
}

#[test]
fn updating_only_description_keeps_name_and_advances_updated_at() {
    let mut store = ItemStore::new();
    let item = store.create_item(create("keep-me", Some("old")), 100).unwrap();
    let patch = UpdateItemRequest { name: None, description: Some("new".to_string()) };
    let updated = store.update_item(item.id, &patch, 200).unwrap();
    assert_eq!(updated.id, item.id);
    assert_eq!(updated.name, "keep-me");
    assert_eq!(updated.description.as_deref(), Some("new"));
    assert_eq!(updated.created_at, 100);
    assert!(updated.updated_at > item.updated_at);
    assert_eq!(updated.updated_at, 200);
}

#[test]
fn updating_only_name_keeps_description() {
    let mut store = ItemStore::new();
    let item = store.create_item(create("before", Some("kept")), 5).unwrap();
    let patch = UpdateItemRequest { name: Some("after".to_string()), description: None };
    let updated = store.update_item(item.id, &patch, 6).unwrap();
    assert_eq!(updated.name, "after");
    assert_eq!(updated.description.as_deref(), Some("kept"));
}

#[test]
fn updating_nonexistent_id_answers_not_found() {
    let mut store = ItemStore::new();
    let patch = UpdateItemRequest { name: Some("x".to_string()), description: None };
    let err = store.update_item(42, &patch, 1).unwrap_err();
    assert!(matches!(err, ApiError::NotFoundError));
    assert_eq!(err.status_code(), 404);
}

#[test]
fn delete_then_fetch_then_delete_again_answer_not_found() {
    let mut store = ItemStore::new();
    let item = store.create_item(create("doomed", None), 1).unwrap();
    assert!(store.delete_item(item.id).is_ok());
    assert!(store.get_item(item.id).is_none());
    let second = store.delete_item(item.id).unwrap_err();
    assert!(matches!(second, ApiError::NotFoundError));
    assert_eq!(second.status_code(), 404);
}

#[test]
fn deleting_one_item_leaves_the_others() {
    let mut store = ItemStore::new();
    store.create_item(create("a", None), 1).unwrap();
    let middle = store.create_item(create("b", None), 2).unwrap();
    store.create_item(create("c", None), 3).unwrap();
    store.delete_item(middle.id).unwrap();
    let ids: Vec<i32> = store.get_items().iter().map(|row| row.id).collect();
    assert_eq!(ids, vec![1, 3]);
}

#[test]
fn fetch_right_after_creation_round_trips_field_for_field() {
    let mut store = ItemStore::new();
    let created = store.create_item(create("round", Some("trip")), 77).unwrap();
    let fetched = store.get_item(created.id).unwrap();
    assert_eq!(fetched.id, created.id);
    assert_eq!(fetched.name, created.name);
    assert_eq!(fetched.description, created.description);
    assert_eq!(fetched.created_at, created.created_at);
    assert_eq!(fetched.updated_at, created.updated_at);
}

#[test]
fn ids_keep_ascending_after_a_delete() {
    let mut store = ItemStore::new();
    let first = store.create_item(create("one", None), 1).unwrap();
    store.delete_item(first.id).unwrap();
    let second = store.create_item(create("two", None), 2).unwrap();
    assert_eq!(second.id, 2);
}

#[test]
fn item_new_sets_equal_timestamps_and_zero_id() {
    let item = Item::new("fresh".to_string(), Some("detail".to_string()));
    assert_eq!(item.id, 0);
    assert_eq!(item.created_at, item.updated_at);
    assert_eq!(item.name, "fresh");
    assert_eq!(item.description.as_deref(), Some("detail"));
}

#[test]
fn error_messages_and_status_codes_follow_the_taxonomy() {
    let database = ApiError::DatabaseError("boom".to_string());
    assert_eq!(database.message(), "Database error: boom");
    assert_eq!(database.status_code(), 500);
    let bad = ApiError::BadRequestError("no".to_string());
    assert_eq!(bad.message(), "Bad request: no");
    assert_eq!(bad.status_code(), 400);
    assert_eq!(ApiError::InternalServerError.message(), "Internal server error");
    assert_eq!(ApiError::InternalServerError.status_code(), 500);
    assert_eq!(ApiError::RateLimitExceeded.message(), "Rate limit exceeded");
    assert_eq!(ApiError::RateLimitExceeded.status_code(), 429);
}

#[test]
fn default_config_holds_the_documented_values() {
    let config = AppConfig::default();
    assert_eq!(config.server.host, "0.0.0.0");
    assert_eq!(config.server.port, 4567);
    assert_eq!(config.database.url, "sqlite::memory:");
}

#[test]
fn overrides_replace_exactly_the_supplied_fields() {
    let config = load_config(Some("127.0.0.1".to_string()), Some("8080".to_string()), None)
        .unwrap();
    assert_eq!(config.server.host, "127.0.0.1");
    assert_eq!(config.server.port, 8080);
    assert_eq!(config.database.url, "sqlite::memory:");
}

#[test]
fn non_numeric_port_override_is_a_configuration_error() {
    let result = load_config(None, Some("not-a-port".to_string()), None);
    match result {
        Err(ConfigError::InvalidPort(value)) => assert_eq!(value, "not-a-port"),
        Ok(_) => panic!("a non-numeric port must not resolve"),
    }
}

#[test]
fn parse_port_accepts_exactly_16_bit_decimal_numerals() {
    assert_eq!(parse_port("4567"), Some(4567));
    assert_eq!(parse_port("0"), Some(0));
    assert_eq!(parse_port("007"), Some(7));
    assert_eq!(parse_port("65535"), Some(65535));
    assert_eq!(parse_port("65536"), None);
    assert_eq!(parse_port("184467440737095516160"), None);
    assert_eq!(parse_port(""), None);
    assert_eq!(parse_port("80a"), None);
    assert_eq!(parse_port("-1"), None);
    assert_eq!(parse_port(" 80"), None);
    assert_eq!(parse_port("+80"), Some(80));
    assert_eq!(parse_port("+65535"), Some(65535));
    assert_eq!(parse_port("+65536"), None);
    assert_eq!(parse_port("+"), None);
    assert_eq!(parse_port("++80"), None);
}

#[test]
fn root_endpoint_greets_with_the_welcome_message() {
    assert_eq!(root_message(), "Welcome to the RESTful API");
}

use items_api::json::{create_item_from_body, parse_create_request, parse_update_request, update_item_from_body};

#[test]
fn well_formed_creation_bodies_parse_to_their_fields() {
    let request = parse_create_request("{\"name\":\"A\",\"description\":\"B\"}").unwrap();
    assert_eq!(request.name, "A");
    assert_eq!(request.description.as_deref(), Some("B"));

    let reversed = parse_create_request(" { \"description\" : \"B\" , \"name\" : \"A\" } ").unwrap();
    assert_eq!(reversed.name, "A");
    assert_eq!(reversed.description.as_deref(), Some("B"));

    let bare = parse_create_request("{\"name\":\"A\"}").unwrap();
    assert_eq!(bare.name, "A");
    assert!(bare.description.is_none());

    let null_description = parse_create_request("{\"name\":\"A\",\"description\":null}").unwrap();
    assert!(null_description.description.is_none());

    let empty_name = parse_create_request("{\"name\":\"\"}").unwrap();
    assert_eq!(empty_name.name, "");
}

#[test]
fn creation_bodies_without_a_name_are_rejected() {
    assert!(parse_create_request("{}").is_none());
    assert!(parse_create_request("{\"description\":\"B\"}").is_none());
    assert!(parse_create_request("{\"name\":null}").is_none());
}

#[test]
fn malformed_bodies_are_rejected() {
    let malformed = [
        "",
        "   ",
        "not json",
        "{",
        "{\"name\"}",
        "{\"name\":}",
        "{\"name\":\"A\"",
        "{\"name\":\"A\"}trailing",
        "{\"name\":5}",
        "{\"name\":\"A\",}",
        "{\"name\":\"A\",\"name\":\"B\"}",
        "{\"name\":\"a\\xb\"}",
        "{\"name\":\"\\ud800\"}",
        "{\"name\":\"\\ude00\\ud83d\"}",
        "{\"name\":\"\\u12\"}",
        "{\"name\":\"A\",\"extra\":01}",
        "{\"name\":\"A\",\"extra\":tru}",
        "{\"name\":\"A\",\"extra\":[1,}",
        "{\"name\":\"A\",\"extra\":{\"k\":}}",
        "[]",
        "null",
        "\"name\"",
    ];
    for body in malformed {
        assert!(parse_create_request(body).is_none(), "accepted: {}", body);
        assert!(parse_update_request(body).is_none(), "accepted: {}", body);
    }
}

#[test]
fn string_values_decode_the_standard_escapes() {
    let quoted = parse_create_request("{\"name\":\"a\\\"b\\\\c\\/d\"}").unwrap();
    assert_eq!(quoted.name, "a\"b\\c/d");

    let control = parse_create_request("{\"name\":\"line1\\nline2\\t\\r\\b\\f\"}").unwrap();
    assert_eq!(control.name, "line1\nline2\t\r\u{8}\u{c}");

    let unicode = parse_create_request("{\"name\":\"\\u0041\\u00e9\\u4e2d\"}").unwrap();
    assert_eq!(unicode.name, "A\u{e9}\u{4e2d}");

    let supplementary = parse_create_request("{\"name\":\"\\ud83d\\ude00\"}").unwrap();
    assert_eq!(supplementary.name, "\u{1f600}");

    let in_description = parse_update_request("{\"description\":\"tab\\there\"}").unwrap();
    assert_eq!(in_description.description.as_deref(), Some("tab\there"));
}

#[test]
fn unknown_members_are_read_over_and_dropped() {
    let with_string = parse_create_request("{\"name\":\"A\",\"color\":\"red\"}").unwrap();
    assert_eq!(with_string.name, "A");
    assert!(with_string.description.is_none());

    let with_nested =
        parse_create_request("{\"meta\":{\"k\":[1,true,null,\"s\"]},\"name\":\"A\"}").unwrap();
    assert_eq!(with_nested.name, "A");

    let with_number =
        parse_create_request("{\"name\":\"A\",\"n\":-1.5e-3,\"z\":0,\"flag\":false}").unwrap();
    assert_eq!(with_number.name, "A");

    let repeated_unknown = parse_create_request("{\"a\":1,\"a\":2,\"name\":\"A\"}").unwrap();
    assert_eq!(repeated_unknown.name, "A");

    let only_unknown = parse_update_request("{\"x\":[[],{}]}").unwrap();
    assert!(only_unknown.name.is_none());
    assert!(only_unknown.description.is_none());

    assert!(parse_create_request("{\"unknown\":\"A\"}").is_none());
}

#[test]
fn update_bodies_resolve_absent_and_null_members_to_keep() {
    let empty = parse_update_request("{}").unwrap();
    assert!(empty.name.is_none());
    assert!(empty.description.is_none());

    let only_description = parse_update_request("{\"description\":\"new\"}").unwrap();
    assert!(only_description.name.is_none());
    assert_eq!(only_description.description.as_deref(), Some("new"));

    let null_name = parse_update_request("{\"name\":null,\"description\":\"d\"}").unwrap();
    assert!(null_name.name.is_none());
    assert_eq!(null_name.description.as_deref(), Some("d"));
}

#[test]
fn creating_from_a_body_goes_through_only_when_well_formed() {
    let mut store = ItemStore::new();
    let item = create_item_from_body(&mut store, "{\"name\":\"A\",\"description\":\"B\"}", 50)
        .unwrap();
    assert_eq!(item.id, 1);
    assert_eq!(item.name, "A");
    assert_eq!(item.description.as_deref(), Some("B"));
    assert_eq!(item.created_at, item.updated_at);
    assert_eq!(store.get_items().len(), 1);
}

#[test]
fn a_malformed_creation_body_never_creates_a_partial_row() {
    let mut store = ItemStore::new();
    let err = create_item_from_body(&mut store, "{\"name\":\"A\"", 50).unwrap_err();
    assert!(matches!(err, ApiError::BadRequestError(_)));
    assert_eq!(err.status_code(), 400);
    assert_eq!(err.message(), "Bad request: malformed JSON body");
    assert!(store.get_items().is_empty());
}

#[test]
fn updating_from_a_body_patches_only_the_supplied_fields() {
    let mut store = ItemStore::new();
    let item = store.create_item(create("keep-me", Some("old")), 100).unwrap();
    let updated = update_item_from_body(&mut store, item.id, "{\"description\":\"new\"}", 200)
        .unwrap();
    assert_eq!(updated.name, "keep-me");
    assert_eq!(updated.description.as_deref(), Some("new"));
    assert_eq!(updated.created_at, 100);
    assert_eq!(updated.updated_at, 200);
}

#[test]
fn updating_from_a_malformed_body_changes_nothing() {
    let mut store = ItemStore::new();
    let item = store.create_item(create("solid", Some("kept")), 1).unwrap();
    let err = update_item_from_body(&mut store, item.id, "{\"description\" \"new\"}", 2).unwrap_err();
    assert!(matches!(err, ApiError::BadRequestError(_)));
    let row = store.get_item(item.id).unwrap();
    assert_eq!(row.name, "solid");
    assert_eq!(row.description.as_deref(), Some("kept"));
    assert_eq!(row.updated_at, 1);
}

#[test]
fn updating_a_missing_id_from_a_well_formed_body_answers_not_found() {
    let mut store = ItemStore::new();
    let err = update_item_from_body(&mut store, 7, "{\"name\":\"x\"}", 1).unwrap_err();
    assert!(matches!(err, ApiError::NotFoundError));
}
