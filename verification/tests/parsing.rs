use sentry_tunneler::sentry::{SentryError, SentryMessage};

#[test]
fn parses_example_payload() {
    let payload = "{\"dsn\":\"https://abc123@o1.ingest.example.com/42\"}\n{\"type\":\"event\"}";
    let m = match SentryMessage::try_from(payload.to_string()) {
        Ok(m) => m,
        Err(_) => panic!("example payload must parse"),
    };
    assert_eq!(m.dsn.host, "o1.ingest.example.com");
    assert_eq!(m.dsn.project_id, "42");
    assert_eq!(m.dsn.public_key, "abc123");
    assert!(m.dsn.https);
    assert_eq!(m.dsn.port, 443);
    assert_eq!(m.body, payload);
}

#[test]
fn parses_header_only_payload() {
    let payload = "{\"dsn\":\"http://key@errors.example.org/7\"}";
    let m = SentryMessage::try_from(payload.to_string()).ok().unwrap();
    assert_eq!(m.dsn.host, "errors.example.org");
    assert_eq!(m.dsn.project_id, "7");
    assert_eq!(m.dsn.public_key, "key");
    assert!(!m.dsn.https);
    assert_eq!(m.dsn.port, 80);
    assert_eq!(m.body, payload);
}

#[test]
fn parses_crlf_header() {
    let payload = "{\"dsn\":\"https://k@h.example.com/1\"}\r\n{\"type\":\"event\"}";
    let m = SentryMessage::try_from(payload.to_string()).ok().unwrap();
    assert_eq!(m.dsn.host, "h.example.com");
    assert_eq!(m.body, payload);
}

#[test]
fn empty_payload_is_invalid_body() {
    assert!(matches!(
        SentryMessage::try_from(String::new()),
        Err(SentryError::InvalidBody)
    ));
}

#[test]
fn non_json_header_is_invalid_body() {
    let r = SentryMessage::try_from("not json at all\n{\"type\":\"event\"}".to_string());
    assert!(matches!(r, Err(SentryError::InvalidBody)));
}

#[test]
fn blank_first_line_is_invalid_body() {
    let r = SentryMessage::try_from("\n{\"dsn\":\"https://k@h/1\"}".to_string());
    assert!(matches!(r, Err(SentryError::InvalidBody)));
}

#[test]
fn missing_dsn_field_is_invalid_dsn() {
    let r = SentryMessage::try_from("{\"type\":\"event\"}\npayload".to_string());
    assert!(matches!(r, Err(SentryError::InvalidDsn)));
}

#[test]
fn non_string_dsn_is_invalid_dsn() {
    let r = SentryMessage::try_from("{\"dsn\":42}\npayload".to_string());
    assert!(matches!(r, Err(SentryError::InvalidDsn)));
}

#[test]
fn unparseable_dsn_is_invalid_dsn() {
    let r = SentryMessage::try_from("{\"dsn\":\"not a connection string\"}".to_string());
    assert!(matches!(r, Err(SentryError::InvalidDsn)));
}

#[test]
fn dsn_without_credential_is_invalid_dsn() {
    let r = SentryMessage::try_from("{\"dsn\":\"https://o1.ingest.example.com/42\"}".to_string());
    assert!(matches!(r, Err(SentryError::InvalidDsn)));
}

#[test]
fn dsn_without_project_is_invalid_dsn() {
    let r = SentryMessage::try_from("{\"dsn\":\"https://abc123@o1.ingest.example.com/\"}".to_string());
    assert!(matches!(r, Err(SentryError::InvalidDsn)));
}

#[test]
fn envelope_api_url_omits_default_port() {
    let payload = "{\"dsn\":\"https://abc123@o1.ingest.example.com/42\"}";
    let m = SentryMessage::try_from(payload.to_string()).ok().unwrap();
    assert_eq!(
        m.dsn.envelope_api_url(),
        "https://o1.ingest.example.com/api/42/envelope/"
    );
    assert_eq!(
        m.dsn.upstream_url(),
        "https://o1.ingest.example.com/api/42/envelope/?sentry_key=abc123"
    );
}

#[test]
fn envelope_api_url_keeps_explicit_port() {
    let payload = "{\"dsn\":\"http://k@relay.example.com:9000/7\"}";
    let m = SentryMessage::try_from(payload.to_string()).ok().unwrap();
    assert_eq!(m.dsn.port, 9000);
    assert_eq!(
        m.dsn.upstream_url(),
        "http://relay.example.com:9000/api/7/envelope/?sentry_key=k"
    );
}

#[test]
fn upstream_url_contains_host_and_project() {
    let payload = "{\"dsn\":\"https://pk@o55.ingest.example.net/9001\"}\nrest";
    let m = SentryMessage::try_from(payload.to_string()).ok().unwrap();
    let url = m.dsn.upstream_url();
    assert!(url.contains("o55.ingest.example.net"));
    assert!(url.contains("9001"));
    assert!(url.ends_with("?sentry_key=pk"));
}
