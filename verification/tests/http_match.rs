use workshop::decimal::IntErrorKind;
use workshop::http_match::{get_content_length, header_value, names_match, Header, RecordedRequest, WellFormedJson};

fn header(name: &str, value: &[u8]) -> Header {
    Header { name: name.as_bytes().to_vec(), value: value.to_vec() }
}

fn request(method: &str, headers: Vec<Header>, body: &[u8]) -> RecordedRequest {
    RecordedRequest { method: method.to_string(), headers, body: body.to_vec() }
}

fn json_post(body: &[u8]) -> RecordedRequest {
    let length = body.len().to_string();
    request(
        "POST",
        vec![header("content-type", b"application/json"), header("content-length", length.as_bytes())],
        body,
    )
}

#[test]
fn errors_on_invalid_json() {
    // Trailing comma is not valid in JSON
    assert!(!WellFormedJson.matches(&json_post(br#"{"hi": 2,"#)));
}

#[test]
fn errors_on_missing_content_type() {
    let body = br#"{"hi":2}"#;
    let req = request("POST", vec![header("content-length", b"8")], body);
    assert!(!WellFormedJson.matches(&req));
}

#[test]
fn errors_on_invalid_content_length() {
    let body = br#"{"hi":2}"#;
    let req = request("POST", vec![header("content-length", b"8")], body);
    assert!(!WellFormedJson.matches(&req));
}

#[test]
fn errors_on_wrong_or_missing_content_length() {
    let body = br#"{"hi":2}"#;
    let req = request("POST", vec![header("content-type", b"application/json"), header("content-length", b"9")], body);
    assert!(!WellFormedJson.matches(&req));
    let req = request("POST", vec![header("content-type", b"application/json"), header("content-length", b"eight")], body);
    assert!(!WellFormedJson.matches(&req));
    let req = request("POST", vec![header("content-type", b"application/json")], body);
    assert!(!WellFormedJson.matches(&req));
}

#[test]
fn errors_on_non_post() {
    let mut req = json_post(br#"{"hi":2}"#);
    req.method = "PATCH".to_string();
    assert!(!WellFormedJson.matches(&req));
}

#[test]
fn happy_path() {
    assert!(WellFormedJson.matches(&json_post(br#"{"hi":2}"#)));
    assert!(WellFormedJson.matches(&json_post(b" {\"a\": [1, 2.5, null, \"x\"]} ")));
}

#[test]
fn errors_on_json_that_is_not_an_object() {
    for body in [&b"[1,2]"[..], b"3", b"\"x\"", b"true", b"null", b"{} {}", b""] {
        assert!(!WellFormedJson.matches(&json_post(body)), "body {:?}", body);
    }
    assert!(WellFormedJson.matches(&json_post(b"{}")));
}

#[test]
fn errors_on_content_type_that_is_not_text() {
    let body = br#"{"hi":2}"#;
    let req = request("POST", vec![header("content-type", b"application/j\xC3\xA9son"), header("content-length", b"8")], body);
    assert!(!WellFormedJson.matches(&req));
    let req = request("POST", vec![header("content-type", b"application/json\x01"), header("content-length", b"8")], body);
    assert!(!WellFormedJson.matches(&req));
}

#[test]
fn content_type_must_be_exact() {
    let body = br#"{"hi":2}"#;
    let req = request("POST", vec![header("content-type", b"application/json; charset=utf-8"), header("content-length", b"8")], body);
    assert!(!WellFormedJson.matches(&req));
    let req = request("POST", vec![header("Content-Type", b"application/json"), header("Content-Length", b"8")], body);
    assert!(WellFormedJson.matches(&req));
}

#[test]
fn matcher_given_body_check() {
    let req = json_post(b"not json");
    assert!(WellFormedJson.matches_with_body_check(&req, true));
    assert!(!WellFormedJson.matches_with_body_check(&req, false));
    assert!(!WellFormedJson.matches(&req));
}

#[test]
fn content_length_errors() {
    let body = b"abc";
    assert_eq!(get_content_length(&request("POST", vec![], body)), Err(IntErrorKind::InvalidDigit));
    assert_eq!(get_content_length(&request("POST", vec![header("content-length", b"")], body)), Err(IntErrorKind::Empty));
    assert_eq!(get_content_length(&request("POST", vec![header("content-length", b"+3")], body)), Ok(3));
    assert_eq!(get_content_length(&request("POST", vec![header("content-length", b"3\x7f")], body)), Err(IntErrorKind::InvalidDigit));
    assert_eq!(
        get_content_length(&request("POST", vec![header("content-length", b"99999999999999999999999")], body)),
        Err(IntErrorKind::PosOverflow)
    );
    let two = vec![header("content-length", b"1"), header("Content-Length", b"2")];
    assert_eq!(get_content_length(&request("POST", two, body)), Ok(1));
}

#[test]
fn header_names_ignore_case() {
    assert!(names_match(b"Content-Length", b"content-length"));
    assert!(!names_match(b"Content-Length", b"content-lengths"));
    assert!(!names_match(b"a", b"b"));
    let headers = vec![header("x-one", b"1"), header("CONTENT-TYPE", b"t")];
    assert_eq!(header_value(&headers, b"content-type"), Some(&b"t".to_vec()));
    assert_eq!(header_value(&headers, b"missing"), None);
}
