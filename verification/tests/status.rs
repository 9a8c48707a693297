use ratelimit_reporter::status::{parse_status, MonitorError};

#[test]
fn message_field_is_extracted() {
    let doc = parse_status("{\"message\": \"You are being blocked for sending too many requests\"}")
        .expect("valid JSON");
    assert_eq!(
        doc.message.as_deref(),
        Some("You are being blocked for sending too many requests")
    );
}

#[test]
fn message_field_survives_other_fields() {
    let doc = parse_status("{\"code\": 40007, \"message\": \"hi\"}").expect("valid JSON");
    assert_eq!(doc.message.as_deref(), Some("hi"));
}

#[test]
fn absent_message_field_is_none() {
    let doc = parse_status("{\"code\": 0}").expect("valid JSON");
    assert_eq!(doc.message, None);
}

#[test]
fn empty_object_has_no_message() {
    let doc = parse_status("{}").expect("valid JSON");
    assert_eq!(doc.message, None);
}

#[test]
fn non_string_message_is_none() {
    let doc = parse_status("{\"message\": 5}").expect("valid JSON");
    assert_eq!(doc.message, None);
}

#[test]
fn non_object_document_has_no_message() {
    let doc = parse_status("[1, 2, 3]").expect("valid JSON");
    assert_eq!(doc.message, None);
}

#[test]
fn error_descriptions_name_the_failed_call() {
    assert_eq!(MonitorError::Fetch.describe(), "status fetch failed");
    assert_eq!(MonitorError::Parse.describe(), "status body is not valid JSON");
    assert_eq!(MonitorError::Report.describe(), "report delivery failed");
}

#[test]
fn invalid_json_is_a_parse_error() {
    let err = parse_status("not json").expect_err("invalid JSON");
    assert_eq!(err, MonitorError::Parse);
}

#[test]
fn truncated_json_is_a_parse_error() {
    let err = parse_status("{\"message\": \"You are").expect_err("invalid JSON");
    assert_eq!(err, MonitorError::Parse);
}
