//! Unit exercises of the record body format and the request-text
//! helpers.

use user_service::http::{body_start, extract_id, parse_request};
use user_service::json::{parse_record, record_to_json, records_to_json};
use user_service::num::parse_i32;
use user_service::text::str_to_chars;
use user_service::User;

#[test]
fn parse_record_accepts_plain_object() {
    let u = parse_record("{\"name\":\"Ada\",\"email\":\"ada@example.org\"}").unwrap();
    assert_eq!(u.id, None);
    assert_eq!(u.name, "Ada");
    assert_eq!(u.email, "ada@example.org");
}

#[test]
fn parse_record_accepts_any_key_order_and_ws() {
    let u = parse_record(" { \"email\" : \"e@x\" ,\n\t\"id\" : 12 , \"name\" : \"N\" } ").unwrap();
    assert_eq!(u.id, Some(12));
    assert_eq!(u.name, "N");
    assert_eq!(u.email, "e@x");
}

#[test]
fn parse_record_accepts_null_and_negative_id() {
    let u = parse_record("{\"id\":null,\"name\":\"n\",\"email\":\"e\"}").unwrap();
    assert_eq!(u.id, None);
    let u = parse_record("{\"id\":-5,\"name\":\"n\",\"email\":\"e\"}").unwrap();
    assert_eq!(u.id, Some(-5));
    let u = parse_record("{\"id\":-2147483648,\"name\":\"n\",\"email\":\"e\"}").unwrap();
    assert_eq!(u.id, Some(i32::MIN));
    let u = parse_record("{\"id\":2147483647,\"name\":\"n\",\"email\":\"e\"}").unwrap();
    assert_eq!(u.id, Some(i32::MAX));
}

#[test]
fn parse_record_decodes_escapes() {
    let u = parse_record("{\"name\":\"a\\\"b\\\\c\\n\\t\\/\",\"email\":\"e\"}").unwrap();
    assert_eq!(u.name, "a\"b\\c\n\t/");
}

#[test]
fn parse_record_rejects_bad_texts() {
    assert!(parse_record("").is_none());
    assert!(parse_record("{}").is_none());
    assert!(parse_record("{\"name\":\"a\"}").is_none());
    assert!(parse_record("{\"email\":\"e\"}").is_none());
    assert!(parse_record("{\"name\":\"a\",\"email\":\"e\"} x").is_none());
    assert!(parse_record("{\"name\":\"a\",\"email\":\"e\",\"name\":\"b\"}").is_none());
    assert!(parse_record("{\"name\":\"a\",\"email\":\"e\",\"age\":3}").is_none());
    assert!(parse_record("{\"name\":\"a\",\"email\":7}").is_none());
    assert!(parse_record("{\"id\":2147483648,\"name\":\"a\",\"email\":\"e\"}").is_none());
    assert!(parse_record("{\"id\":01,\"name\":\"a\",\"email\":\"e\"}").is_none());
    assert!(parse_record("{\"id\":1.5,\"name\":\"a\",\"email\":\"e\"}").is_none());
    assert!(parse_record("{\"name\":\"a\\u0041\",\"email\":\"e\"}").is_none());
    assert!(parse_record("{\"name\":\"a\",\"email\":\"e\"").is_none());
}

#[test]
fn render_record_formats_fields() {
    let u = User { id: Some(1), name: "Ada".to_string(), email: "ada@example.org".to_string() };
    assert_eq!(record_to_json(&u), "{\"id\":1,\"name\":\"Ada\",\"email\":\"ada@example.org\"}");
    let u = User { id: None, name: "a\"b\\".to_string(), email: "x\n".to_string() };
    assert_eq!(record_to_json(&u), "{\"id\":null,\"name\":\"a\\\"b\\\\\",\"email\":\"x\\n\"}");
    let u = User { id: Some(-2147483648), name: "\u{1}".to_string(), email: String::new() };
    assert_eq!(
        record_to_json(&u),
        "{\"id\":-2147483648,\"name\":\"\\u0001\",\"email\":\"\"}"
    );
}

#[test]
fn render_records_joins_with_commas() {
    assert_eq!(records_to_json(&vec![]), "[]");
    let a = User { id: Some(1), name: "a".to_string(), email: "a@x".to_string() };
    let b = User { id: Some(2), name: "b".to_string(), email: "b@x".to_string() };
    assert_eq!(
        records_to_json(&vec![a, b]),
        "[{\"id\":1,\"name\":\"a\",\"email\":\"a@x\"},{\"id\":2,\"name\":\"b\",\"email\":\"b@x\"}]"
    );
}

#[test]
fn request_line_tokens() {
    let cs = str_to_chars("GET /users HTTP/1.1\r\nHost: x\r\n\r\nbody");
    let (m, p) = parse_request(&cs).unwrap();
    assert_eq!(m, "GET");
    assert_eq!(p, "/users");
    let cs = str_to_chars("  GET\t/users  ");
    let (m, p) = parse_request(&cs).unwrap();
    assert_eq!(m, "GET");
    assert_eq!(p, "/users");
    assert!(parse_request(&str_to_chars("")).is_none());
    assert!(parse_request(&str_to_chars("GET")).is_none());
    assert!(parse_request(&str_to_chars("\r\nGET /users")).is_none());
}

#[test]
fn body_follows_last_separator() {
    let cs = str_to_chars("POST /users HTTP/1.1\r\nA: b\r\n\r\n{\"k\":1}");
    let start = body_start(&cs);
    let body: String = cs[start..].iter().collect();
    assert_eq!(body, "{\"k\":1}");
    let cs = str_to_chars("POST /users HTTP/1.1\r\n\r\nfirst\r\n\r\nsecond");
    let start = body_start(&cs);
    let body: String = cs[start..].iter().collect();
    assert_eq!(body, "second");
    let cs = str_to_chars("POST /users HTTP/1.1");
    assert_eq!(body_start(&cs), cs.len());
}

#[test]
fn id_segment_of_path() {
    let cs = str_to_chars("/users/15");
    assert_eq!(extract_id(&cs), Some((7, 9)));
    let cs = str_to_chars("/users/15/rest");
    assert_eq!(extract_id(&cs), Some((7, 9)));
    let cs = str_to_chars("/users");
    assert_eq!(extract_id(&cs), None);
    let cs = str_to_chars("/users/");
    assert_eq!(extract_id(&cs), Some((7, 7)));
}

#[test]
fn parse_i32_forms() {
    let cs = str_to_chars("007");
    assert_eq!(parse_i32(&cs, 0, 3), Some(7));
    let cs = str_to_chars("+15");
    assert_eq!(parse_i32(&cs, 0, 3), Some(15));
    let cs = str_to_chars("-2147483648");
    assert_eq!(parse_i32(&cs, 0, 11), Some(i32::MIN));
    let cs = str_to_chars("2147483648");
    assert_eq!(parse_i32(&cs, 0, 10), None);
    let cs = str_to_chars("-2147483649");
    assert_eq!(parse_i32(&cs, 0, 11), None);
    let cs = str_to_chars("12a");
    assert_eq!(parse_i32(&cs, 0, 3), None);
    let cs = str_to_chars("");
    assert_eq!(parse_i32(&cs, 0, 0), None);
    let cs = str_to_chars("-");
    assert_eq!(parse_i32(&cs, 0, 1), None);
}
