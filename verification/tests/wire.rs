use push_notifications::build_create_message;
use push_notifications::content::{ContentSettingsBuilder, ContentType};
use push_notifications::message::CreateMessageBuilder;
use push_notifications::datetime::DateTime;
use push_notifications::error::{Error, ParseError};
use push_notifications::request::{request_body_from_json, serialize_request, Request, RequestData};

#[test]
fn minimal_message_serializes_to_documented_shape() {
    let m = build_create_message(
        "TOK".to_string(),
        "APP1".to_string(),
        "{\"platforms\":[\"ios\"],\"message\":\"hello\"}",
        None,
        None,
        None,
        false,
        None,
    )
    .unwrap();
    let body = serialize_request(&Request::new(RequestData::CreateMessageRequest(m)));
    assert_eq!(
        body,
        "{\"request\":{\"auth\":\"TOK\",\"application\":\"APP1\",\
         \"notifications\":[{\"platforms\":[\"ios\"],\"message\":\"hello\"}]}}"
    );
}

#[test]
fn all_targeting_fields_serialize_under_their_wire_names() {
    let m = build_create_message(
        "TOK".to_string(),
        "APP1".to_string(),
        "{\"message\":\"hi\"}",
        Some("Europe/Berlin".to_string()),
        Some("camp".to_string()),
        Some("filt".to_string()),
        true,
        Some(DateTime { year: 2023, month: 5, day: 1, hour: 14, minute: 30 }),
    )
    .unwrap();
    let body = serialize_request(&Request::new(RequestData::CreateMessageRequest(m)));
    assert_eq!(
        body,
        "{\"request\":{\"auth\":\"TOK\",\"application\":\"APP1\",\"notifications\":[\
         {\"message\":\"hi\",\"timezone\":\"Europe/Berlin\",\"campaign\":\"camp\",\
         \"filter\":\"filt\",\"ignore_user_timezones\":true,\
         \"send_date\":\"2023-05-01 14:30\"}]}}"
    );
}

#[test]
fn serialized_request_is_valid_json() {
    let m = build_create_message(
        "TO\"K\\".to_string(),
        "AP\nP1".to_string(),
        "{\"message\":\"hello\"}",
        Some("Zone\t\"Z\"".to_string()),
        None,
        None,
        false,
        None,
    )
    .unwrap();
    let body = serialize_request(&Request::new(RequestData::CreateMessageRequest(m)));
    let doc: serde_json::Value = serde_json::from_str(&body).unwrap();
    let req = &doc["request"];
    assert_eq!(req["auth"], "TO\"K\\");
    assert_eq!(req["application"], "AP\nP1");
    assert_eq!(req["notifications"][0]["message"], "hello");
    assert_eq!(req["notifications"][0]["timezone"], "Zone\t\"Z\"");
}

#[test]
fn control_characters_are_escaped() {
    let m = build_create_message(
        "a\u{1}b".to_string(),
        "APP".to_string(),
        "{}",
        None,
        None,
        None,
        false,
        None,
    )
    .unwrap();
    let body = serialize_request(&Request::new(RequestData::CreateMessageRequest(m)));
    assert!(body.contains("\"a\\u0001b\""));
    let doc: serde_json::Value = serde_json::from_str(&body).unwrap();
    assert_eq!(doc["request"]["auth"], "a\u{1}b");
}

#[test]
fn empty_content_with_flag_still_forms_an_object() {
    let m = build_create_message(
        "TOK".to_string(),
        "APP".to_string(),
        "{}",
        None,
        None,
        None,
        true,
        None,
    )
    .unwrap();
    let body = serialize_request(&Request::new(RequestData::CreateMessageRequest(m)));
    assert_eq!(
        body,
        "{\"request\":{\"auth\":\"TOK\",\"application\":\"APP\",\
         \"notifications\":[{\"ignore_user_timezones\":true}]}}"
    );
}

#[test]
fn empty_content_and_no_fields_serializes_empty_entry() {
    let m = build_create_message(
        "TOK".to_string(),
        "APP".to_string(),
        " {} ",
        None,
        None,
        None,
        false,
        None,
    )
    .unwrap();
    let body = serialize_request(&Request::new(RequestData::CreateMessageRequest(m)));
    assert_eq!(
        body,
        "{\"request\":{\"auth\":\"TOK\",\"application\":\"APP\",\"notifications\":[{}]}}"
    );
}

#[test]
fn two_entries_are_comma_separated_in_submission_order() {
    let first = ContentSettingsBuilder::new()
        .with_content(ContentType::new("{\"message\":\"a\"}").unwrap())
        .build()
        .unwrap();
    let second = ContentSettingsBuilder::new()
        .with_content(ContentType::new("{\"message\":\"b\"}").unwrap())
        .with_campaign(Some("c2".to_string()))
        .build()
        .unwrap();
    let m = CreateMessageBuilder::new()
        .with_auth("TOK".to_string())
        .with_application("APP".to_string())
        .add_content_settings(first)
        .add_content_settings(second)
        .build()
        .unwrap();
    let body = serialize_request(&Request::new(RequestData::CreateMessageRequest(m)));
    assert_eq!(
        body,
        "{\"request\":{\"auth\":\"TOK\",\"application\":\"APP\",\"notifications\":[\
         {\"message\":\"a\"},{\"message\":\"b\",\"campaign\":\"c2\"}]}}"
    );
}

#[test]
fn build_create_message_rejects_bad_content() {
    let r = build_create_message(
        "TOK".to_string(),
        "APP".to_string(),
        "not json",
        None,
        None,
        None,
        false,
        None,
    );
    assert_eq!(r.map(|_| ()), Err(Error::Parse(ParseError::InvalidJson)));
}

#[test]
fn prebuilt_document_is_wrapped_verbatim() {
    let doc = "{\"auth\":\"TOK\",\"application\":\"APP1\",\"notifications\":[{\"message\":\"hello\"}]}";
    let body = request_body_from_json(doc).unwrap();
    assert_eq!(body, format!("{{\"request\":{}}}", doc));
    let parsed: serde_json::Value = serde_json::from_str(&body).unwrap();
    assert_eq!(parsed["request"]["auth"], "TOK");
}

#[test]
fn prebuilt_document_keeps_its_formatting() {
    let doc = "{ \"auth\" : \"TOK\" ,\n \"extra\": [1, 2] }";
    let body = request_body_from_json(doc).unwrap();
    assert_eq!(body, format!("{{\"request\":{}}}", doc));
}

#[test]
fn prebuilt_document_must_be_valid_json() {
    let r = request_body_from_json("{\"auth\": ");
    assert_eq!(r, Err(Error::Parse(ParseError::InvalidJson)));
}
