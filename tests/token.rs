use azure_token::config::parse_config;
use azure_token::token::{
    access_token_from_body, access_token_from_value, token_form_fields, token_request,
    TokenError, GRANT_TYPE, SCOPE,
};

fn pairs(fields: &[(String, String)]) -> Vec<(&str, &str)> {
    fields.iter().map(|(k, v)| (k.as_str(), v.as_str())).collect()
}

#[test]
fn form_has_exactly_four_fields() {
    let fields = token_form_fields("my-client", "s3cr3t");
    assert_eq!(
        pairs(&fields),
        vec![
            ("client_id", "my-client"),
            ("client_secret", "s3cr3t"),
            ("grant_type", "client_credentials"),
            ("scope", "https://management.azure.com/.default"),
        ]
    );
    assert_eq!(GRANT_TYPE, "client_credentials");
    assert_eq!(SCOPE, "https://management.azure.com/.default");
}

#[test]
fn request_follows_credentials_only() {
    let a = parse_config(
        r#"{"client_id": "id", "client_secret": "pw", "token_endpoint": "https://a.example/token",
            "timeout_seconds": 1}"#,
    )
    .unwrap();
    let b = parse_config(
        r#"{"client_id": "id", "client_secret": "pw", "token_endpoint": "https://b.example/token",
            "timeout_seconds": 900, "scope": "other"}"#,
    )
    .unwrap();
    let ra = token_request(&a);
    let rb = token_request(&b);
    assert_eq!(ra.endpoint, "https://a.example/token");
    assert_eq!(rb.endpoint, "https://b.example/token");
    assert_eq!(ra.form, rb.form);
    assert_eq!(pairs(&ra.form), pairs(&token_form_fields("id", "pw")));
}

#[test]
fn token_is_read_from_reply() {
    assert_eq!(access_token_from_body(r#"{"access_token":"abc123"}"#).unwrap(), "abc123");
}

#[test]
fn token_among_other_members() {
    let body = r#"{"token_type": "Bearer", "expires_in": 3599, "access_token": "eyJ0.x.y"}"#;
    assert_eq!(access_token_from_body(body).unwrap(), "eyJ0.x.y");
}

#[test]
fn reply_without_token_gives_empty() {
    assert_eq!(access_token_from_body(r#"{"error":"invalid_client"}"#).unwrap(), "");
}

#[test]
fn non_string_token_gives_empty() {
    assert_eq!(access_token_from_body(r#"{"access_token": 12}"#).unwrap(), "");
    assert_eq!(access_token_from_body(r#"{"access_token": null}"#).unwrap(), "");
    assert_eq!(access_token_from_body(r#"["access_token"]"#).unwrap(), "");
    assert_eq!(access_token_from_body(r#""access_token""#).unwrap(), "");
}

#[test]
fn non_json_reply_fails() {
    assert!(matches!(
        access_token_from_body("<html>Bad Gateway</html>"),
        Err(TokenError::MalformedResponse(_))
    ));
    assert!(matches!(access_token_from_body(""), Err(TokenError::MalformedResponse(_))));
}

#[test]
fn token_from_parsed_reply() {
    let doc: serde_json::Value = serde_json::from_str(r#"{"access_token": "t0k"}"#).unwrap();
    assert_eq!(access_token_from_value(&doc), "t0k");
    let doc: serde_json::Value = serde_json::from_str("{}").unwrap();
    assert_eq!(access_token_from_value(&doc), "");
}
