use push_notifications::content::{ContentSettingsBuilder, ContentType};
use push_notifications::datetime::DateTime;
use push_notifications::error::{Error, ValidationError};
use push_notifications::message::CreateMessageBuilder;

fn sample_content() -> ContentType {
    ContentType::new("{\"platforms\":[\"ios\"],\"message\":\"hello\"}").unwrap()
}

#[test]
fn content_builder_fails_without_content() {
    let r = ContentSettingsBuilder::new()
        .with_timezone(Some("Europe/Berlin".to_string()))
        .with_campaign(Some("camp".to_string()))
        .build();
    assert_eq!(r, Err(Error::Validation(ValidationError::MissingContent)));
}

#[test]
fn content_builder_succeeds_with_content_only() {
    let r = ContentSettingsBuilder::new().with_content(sample_content()).build();
    assert!(r.is_ok());
}

#[test]
fn message_builder_fails_without_auth() {
    let settings = ContentSettingsBuilder::new()
        .with_content(sample_content())
        .build()
        .unwrap();
    let r = CreateMessageBuilder::new()
        .with_application("APP1".to_string())
        .add_content_settings(settings)
        .build();
    assert_eq!(r.map(|_| ()), Err(Error::Validation(ValidationError::MissingAuth)));
}

#[test]
fn message_builder_fails_without_application() {
    let settings = ContentSettingsBuilder::new()
        .with_content(sample_content())
        .build()
        .unwrap();
    let r = CreateMessageBuilder::new()
        .with_auth("TOK".to_string())
        .add_content_settings(settings)
        .build();
    assert_eq!(
        r.map(|_| ()),
        Err(Error::Validation(ValidationError::MissingApplication))
    );
}

#[test]
fn message_builder_fails_without_content_settings() {
    let r = CreateMessageBuilder::new()
        .with_auth("TOK".to_string())
        .with_application("APP1".to_string())
        .build();
    assert_eq!(
        r.map(|_| ()),
        Err(Error::Validation(ValidationError::NoContentSettings))
    );
}

#[test]
fn message_builder_succeeds_with_all_requirements() {
    let settings = ContentSettingsBuilder::new()
        .with_content(sample_content())
        .build()
        .unwrap();
    let m = CreateMessageBuilder::new()
        .with_auth("TOK".to_string())
        .with_application("APP1".to_string())
        .add_content_settings(settings)
        .build()
        .unwrap();
    assert_eq!(m.auth(), "TOK");
    assert_eq!(m.application(), "APP1");
    assert_eq!(m.content_settings().len(), 1);
}

#[test]
fn second_setter_call_overwrites_first() {
    let first = ContentSettingsBuilder::new()
        .with_content(sample_content())
        .with_timezone(Some("America/New_York".to_string()))
        .with_timezone(Some("Europe/Berlin".to_string()))
        .with_campaign(Some("one".to_string()))
        .with_campaign(Some("two".to_string()))
        .with_filter(Some("a".to_string()))
        .with_filter(Some("b".to_string()))
        .with_ignore_user_timezones(true)
        .with_ignore_user_timezones(false)
        .with_send_date(DateTime { year: 2023, month: 1, day: 1, hour: 0, minute: 0 })
        .with_send_date(DateTime { year: 2024, month: 2, day: 2, hour: 1, minute: 1 })
        .build()
        .unwrap();
    let second = ContentSettingsBuilder::new()
        .with_content(sample_content())
        .with_timezone(Some("Europe/Berlin".to_string()))
        .with_campaign(Some("two".to_string()))
        .with_filter(Some("b".to_string()))
        .with_ignore_user_timezones(false)
        .with_send_date(DateTime { year: 2024, month: 2, day: 2, hour: 1, minute: 1 })
        .build()
        .unwrap();
    assert_eq!(first, second);
}

#[test]
fn setter_order_does_not_matter() {
    let a = ContentSettingsBuilder::new()
        .with_timezone(Some("UTC".to_string()))
        .with_content(sample_content())
        .build()
        .unwrap();
    let b = ContentSettingsBuilder::new()
        .with_content(sample_content())
        .with_timezone(Some("UTC".to_string()))
        .build()
        .unwrap();
    assert_eq!(a, b);
}

#[test]
fn content_rejects_invalid_json() {
    assert!(ContentType::new("{\"open\":").is_err());
    assert!(ContentType::new("not json at all").is_err());
}

#[test]
fn content_rejects_non_object_documents() {
    assert!(ContentType::new("[1,2,3]").is_err());
    assert!(ContentType::new("\"hello\"").is_err());
    assert!(ContentType::new("42").is_err());
    assert!(ContentType::new("null").is_err());
}

#[test]
fn content_accepts_surrounding_whitespace() {
    assert!(ContentType::new("  {\"a\":1}\n").is_ok());
    assert!(ContentType::new("{}").is_ok());
}
