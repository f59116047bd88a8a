use android_sms_gateway::client::{
    attachment_path, auth_header, bearer_header, build_path, encode_path_segment, listing_path,
    logs_path, parse_total_count, resource_path, user_agent, RequestSetup,
};
use android_sms_gateway::http::{map_error, request_url};
use android_sms_gateway::types::{SendOptions, Timestamp};
use android_sms_gateway::{ClientConfig, Error, BASE_URL};

fn config_error(c: &ClientConfig) -> String {
    match c.validate() {
        Err(Error::InvalidConfig(m)) => m,
        other => panic!("expected a config error, got {:?}", other),
    }
}

#[test]
fn config_defaults_and_builders() {
    let c = ClientConfig::new();
    assert_eq!(c.base_url(), BASE_URL);
    assert_eq!(c.base_url(), "https://api.sms-gate.app/3rdparty/v1");
    let c = c.with_base_url("https://gw.example/api").with_token("t");
    assert_eq!(c.base_url(), "https://gw.example/api");
    assert_eq!(c.token().map(|s| s.as_str()), Some("t"));
    assert!(c.username().is_none());
    assert!(c.into_http_client().is_none());
}

#[test]
fn config_validation_messages() {
    assert_eq!(config_error(&ClientConfig::new()), "missing auth credentials");
    let mut c = ClientConfig::new().with_basic_auth("u", "p");
    assert!(c.validate().is_ok());
    c = ClientConfig::new().with_token("t");
    assert!(c.validate().is_ok());
    let c = ClientConfig::new().with_basic_auth("u", "p").with_token("t");
    assert!(c.validate().is_ok());
}

#[test]
fn auth_headers() {
    let c = ClientConfig::new().with_basic_auth("user", "pass");
    assert_eq!(auth_header(&c).unwrap(), "Basic dXNlcjpwYXNz");
    let c = c.with_token("jwt");
    assert_eq!(auth_header(&c).unwrap(), "Bearer jwt");
    match auth_header(&ClientConfig::new()) {
        Err(Error::InvalidConfig(m)) => assert_eq!(m, "missing auth credentials"),
        other => panic!("unexpected {:?}", other),
    }
    assert_eq!(bearer_header("rt"), "Bearer rt");
    assert_eq!(user_agent(), "android-sms-gateway/0.3.0 (client; rust)");
}

#[test]
fn paths() {
    assert_eq!(build_path("/messages", ""), "/messages");
    assert_eq!(build_path("/messages", "a=b"), "/messages?a=b");
    assert_eq!(encode_path_segment("a b/c~d-e.f_g%ü"), "a%20b%2Fc~d-e.f_g%25%C3%BC");
    assert_eq!(resource_path("/messages", "id/1"), "/messages/id%2F1");
    assert_eq!(attachment_path("m 1", -7), "/inbox/m%201/attachments/-7");
    assert_eq!(
        listing_path("/messages", &SendOptions::new().with_device_active_within(3)),
        "/messages?deviceActiveWithin=3"
    );
    assert_eq!(listing_path("/inbox", &SendOptions::new()), "/inbox");
    let a = Timestamp::from_unix(0, 0).unwrap();
    let b = Timestamp::from_unix(60, 0).unwrap();
    assert_eq!(
        logs_path(&a, &b).unwrap(),
        "/logs?from=1970-01-01T00%3A00%3A00%2B00%3A00&to=1970-01-01T00%3A01%3A00%2B00%3A00"
    );
    match logs_path(&b, &a) {
        Err(Error::Validation(m)) => assert_eq!(m, "`from` date must be before `to` date"),
        other => panic!("unexpected {:?}", other),
    }
}

#[test]
fn urls() {
    assert_eq!(request_url("https://h/api//", "/health"), "https://h/api/health");
    assert_eq!(request_url("https://h/api", "/health"), "https://h/api/health");
    assert_eq!(request_url("///", "/x"), "/x");
}

#[test]
fn total_counts() {
    assert_eq!(parse_total_count(None), None);
    assert_eq!(parse_total_count(Some("42")), Some(42));
    assert_eq!(parse_total_count(Some("+7")), Some(7));
    assert_eq!(parse_total_count(Some("18446744073709551615")), Some(u64::MAX));
    assert_eq!(parse_total_count(Some("18446744073709551616")), None);
    assert_eq!(parse_total_count(Some("-1")), None);
    assert_eq!(parse_total_count(Some(" 1")), None);
    assert_eq!(parse_total_count(Some("")), None);
    assert_eq!(parse_total_count(Some("+")), None);
}

#[test]
fn status_errors() {
    assert!(matches!(map_error(400, "b"), Error::BadRequest(m) if m == "b"));
    assert!(matches!(map_error(401, "b"), Error::Unauthorized(m) if m == "b"));
    assert!(matches!(map_error(403, "b"), Error::Forbidden(m) if m == "b"));
    assert!(matches!(map_error(404, "b"), Error::NotFound(m) if m == "b"));
    assert!(matches!(map_error(409, "b"), Error::Conflict(m) if m == "b"));
    assert!(matches!(map_error(422, "b"), Error::UnprocessableEntity(m) if m == "b"));
    assert!(matches!(map_error(429, "b"), Error::TooManyRequests(m) if m == "b"));
    assert!(matches!(map_error(503, "down"), Error::Server(m)
        if m == "unexpected status code 503 with body: down"));
    assert!(matches!(map_error(418, "tea"), Error::Client(m)
        if m == "unexpected status code 418 with body: tea"));
    assert!(matches!(map_error(600, ""), Error::Client(m)
        if m == "unexpected status code 600 with body: "));
}

#[test]
fn error_messages() {
    assert_eq!(Error::Validation("x".into()).message(), "validation failed: x");
    assert_eq!(Error::ConflictFields("ttl".into()).message(), "conflict fields: ttl");
    assert_eq!(Error::InvalidConfig("c".into()).message(), "invalid config: c");
    assert_eq!(Error::Server("s".into()).message(), "api error: server error: s");
    assert_eq!(
        Error::BadRequest("b".into()).message(),
        "api error: client error: validation failed: b"
    );
    let json = serde_json::from_str::<u8>("x").unwrap_err();
    let text = json.to_string();
    assert_eq!(Error::Json(json).message(), format!("json error: {}", text));
}

#[test]
fn request_setup_carries_url_and_headers_of_the_config() {
    let c = ClientConfig::new().with_base_url("https://h.example/api//").with_token("tok");
    let s = RequestSetup::from_config(&c).unwrap();
    let r = s.prepare("/messages");
    assert_eq!(r.url, "https://h.example/api/messages");
    assert_eq!(r.authorization, "Bearer tok");
    assert_eq!(r.user_agent, user_agent());
    assert_eq!(r.user_agent, "android-sms-gateway/0.3.0 (client; rust)");
    let r2 = s.prepare_with_authorization("/auth/token/refresh", "Bearer other");
    assert_eq!(r2.url, "https://h.example/api/auth/token/refresh");
    assert_eq!(r2.authorization, "Bearer other");
    assert_eq!(r2.user_agent, r.user_agent);
}

#[test]
fn request_setup_uses_basic_credentials_and_refuses_bad_config() {
    let c = ClientConfig::new().with_basic_auth("user", "pass");
    let s = RequestSetup::from_config(&c).unwrap();
    let r = s.prepare("/health");
    assert_eq!(r.url, "https://api.sms-gate.app/3rdparty/v1/health");
    assert_eq!(r.authorization, "Basic dXNlcjpwYXNz");
    assert!(matches!(RequestSetup::from_config(&ClientConfig::new()), Err(Error::InvalidConfig(_))));
}
