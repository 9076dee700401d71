use wires::command::{GetParameters, WebDriverCommand, WebDriverMessage};
use wires::error::{ErrorStatus, WebDriverError};
use wires::json::{within_parse_limits, JsonValue};
use wires::response::render;
use wires::router::{check_pattern, compile_path, get_builder, MatchType, MessageBuilder, Method, PatternError, RequestMatcher};

fn url_routes() -> MessageBuilder {
    let mut b = MessageBuilder::new();
    b.add(Method::Post, "/session/{sessionId}/url", MatchType::MatchGet).unwrap();
    b.add(Method::Get, "/session/{sessionId}/url", MatchType::MatchGetCurrentUrl).unwrap();
    b
}

#[test]
fn compile_path_builds_anchored_groups() {
    let (re, names) = compile_path("/session/{sessionId}/url");
    assert_eq!(re, "^/session/(?P<sessionId>[^/]+)/url$");
    assert_eq!(names, vec!["sessionId".to_string()]);
    let (re, names) = compile_path("/session");
    assert_eq!(re, "^/session$");
    assert!(names.is_empty());
}

#[test]
fn check_pattern_finds_unclosed_placeholder() {
    assert!(!check_pattern("/session/{sessionId/url"));
    assert!(!check_pattern("/session/{"));
    assert!(check_pattern("/session/{sessionId}/url"));
    assert!(check_pattern("/session"));
    assert!(check_pattern("/a/}b"));
}

#[test]
fn matcher_new_errors() {
    assert_eq!(
        RequestMatcher::new(Method::Get, "/a/{}", MatchType::MatchGet).err(),
        Some(PatternError::RejectedPattern)
    );
    let mut b = MessageBuilder::new();
    assert_eq!(b.add(Method::Get, "/a/(", MatchType::MatchGet), Err(PatternError::RejectedPattern));
    assert!(b.route(Method::Get, "/a/(").is_none());
}

#[test]
fn matcher_matches_whole_path_only() {
    let m = RequestMatcher::new(Method::Get, "/session/{sessionId}/url", MatchType::MatchGetCurrentUrl).unwrap();
    assert_eq!(m.method(), Method::Get);
    assert_eq!(m.match_type(), MatchType::MatchGetCurrentUrl);
    assert_eq!(
        m.get_match(Method::Get, "/session/s1/url"),
        Some(vec![("sessionId".to_string(), "s1".to_string())])
    );
    assert_eq!(m.get_match(Method::Post, "/session/s1/url"), None);
    assert_eq!(m.get_match(Method::Get, "/session/s1/url/"), None);
    assert_eq!(m.get_match(Method::Get, "/x/session/s1/url"), None);
    assert_eq!(m.get_match(Method::Get, "/session/a/b/url"), None);
    assert!(m.matches_path("/session/s1/url"));
}

#[test]
fn router_scenario() {
    let b = url_routes();
    let (t, caps) = b.route(Method::Get, "/session/abc-123/url").unwrap();
    assert_eq!(t, MatchType::MatchGetCurrentUrl);
    assert_eq!(caps, vec![("sessionId".to_string(), "abc-123".to_string())]);
    assert!(b.route(Method::Put, "/session/abc-123/url").is_none());
    assert!(b.route(Method::Get, "/session/abc-123/title").is_none());
}

#[test]
fn first_registration_wins() {
    let mut b = MessageBuilder::new();
    b.add(Method::Get, "/session/{sessionId}/url", MatchType::MatchGetCurrentUrl).unwrap();
    b.add(Method::Get, "/session/{other}/url", MatchType::MatchGet).unwrap();
    let (t, caps) = b.route(Method::Get, "/session/q/url").unwrap();
    assert_eq!(t, MatchType::MatchGetCurrentUrl);
    assert_eq!(caps[0].0, "sessionId");
}

#[test]
fn dispatch_tells_unknown_path_from_unknown_method() {
    let b = url_routes();
    assert_eq!(b.dispatch(Method::Put, "/session/abc/url", "").unwrap_err().status, ErrorStatus::UnknownMethod);
    assert_eq!(b.dispatch(Method::Get, "/session/abc/title", "").unwrap_err().status, ErrorStatus::UnknownPath);
    assert!(b.from_http(Method::Put, "/session/abc/url", "").is_none());
}

#[test]
fn new_session_scenario() {
    let b = get_builder().unwrap();
    let m = b.from_http(Method::Post, "/session", "{}").unwrap().unwrap();
    assert_eq!(m, WebDriverMessage { session_id: None, command: WebDriverCommand::NewSession });
    let backend = JsonValue::Object(vec![("sessionId".to_string(), JsonValue::String("s9".to_string()))]);
    let r = render(Ok(backend));
    assert_eq!(r.status, 200);
    assert_eq!(
        r.body,
        JsonValue::Object(vec![("sessionId".to_string(), JsonValue::String("s9".to_string()))])
    );
}

#[test]
fn malformed_body_scenario() {
    let b = get_builder().unwrap();
    let e = b.dispatch(Method::Post, "/session/abc/url", "not-json").unwrap_err();
    assert_eq!(e.status, ErrorStatus::UnknownError);
    assert!(!e.message.is_empty());
    let text = e.to_json_string();
    assert!(text.starts_with("{\"error\":\""));
    assert!(text.ends_with("\",\"status\":\"unknown error\"}"));
    let r = render(Err(e));
    assert_eq!(r.status, 500);
    match r.body {
        JsonValue::Object(m) => {
            assert_eq!(m.len(), 2);
            assert_eq!(m[1], ("status".to_string(), JsonValue::String("unknown error".to_string())));
        }
        _ => panic!("not an object"),
    }
}

#[test]
fn navigate_builds_get_command() {
    let b = get_builder().unwrap();
    let m = b.dispatch(Method::Post, "/session/s1/url", "{\"url\": \"http://example.org/\"}").unwrap();
    assert_eq!(
        m,
        WebDriverMessage {
            session_id: Some("s1".to_string()),
            command: WebDriverCommand::Get(GetParameters { url: "http://example.org/".to_string() }),
        }
    );
    let e = b.dispatch(Method::Post, "/session/s1/url", "{\"href\": 1}").unwrap_err();
    assert_eq!(e.status, ErrorStatus::InvalidArgument);
    let e = b.dispatch(Method::Post, "/session/s1/url", "[1, 2]").unwrap_err();
    assert_eq!(e.status, ErrorStatus::InvalidArgument);
}

#[test]
fn get_current_url_ignores_body() {
    let b = get_builder().unwrap();
    let m = b.dispatch(Method::Get, "/session/s2/url", "").unwrap();
    assert_eq!(m, WebDriverMessage { session_id: Some("s2".to_string()), command: WebDriverCommand::GetCurrentUrl });
}

#[test]
fn missing_session_capture_is_an_error() {
    let m = WebDriverMessage::from_http(MatchType::MatchGetCurrentUrl, &vec![], "");
    assert_eq!(m.unwrap_err().status, ErrorStatus::UnknownError);
}

#[test]
fn render_routing_errors() {
    let r = render(Err(WebDriverError::new(ErrorStatus::UnknownPath, "p")));
    assert_eq!(r.status, 404);
    let r = render(Err(WebDriverError::new(ErrorStatus::UnknownMethod, "m")));
    assert_eq!(r.status, 405);
}

#[test]
fn navigate_with_non_string_url() {
    let b = get_builder().unwrap();
    for body in vec!["{\"url\": 1.5}", "{\"url\": -3}", "{\"url\": null}", "{\"url\": [\"a\"]}"] {
        let e = b.dispatch(Method::Post, "/session/s1/url", body).unwrap_err();
        assert_eq!(e.status, ErrorStatus::InvalidArgument);
    }
}

#[test]
fn parse_error_carries_the_parser_message() {
    let expected = rustc_serialize::json::Json::from_str("not-json").unwrap_err().to_string();
    let e = wires::command::parse_body("not-json").unwrap_err();
    assert_eq!(e.status, ErrorStatus::UnknownError);
    assert_eq!(e.message, expected);
}

#[test]
fn parse_limits() {
    let long_exponent = format!("1e{}", "9".repeat(20));
    assert!(!within_parse_limits(&long_exponent));
    assert!(within_parse_limits("1e999999999"));
    assert!(!within_parse_limits("1E+9999999999"));
    assert!(within_parse_limits("{\"url\": \"e12345678901234567890\"}"));
    assert!(within_parse_limits("{\"url\": \"\\\"e12345678901234567890\"}"));
    assert!(within_parse_limits(&"[".repeat(100)));
    assert!(!within_parse_limits(&"[".repeat(101)));
    assert!(within_parse_limits(&format!("\"{}\"", "[".repeat(200))));
    assert!(within_parse_limits(&"[]".repeat(200)));
}

#[test]
fn bodies_beyond_parser_limits_are_unknown_errors() {
    let b = get_builder().unwrap();
    let body = format!("{{\"url\": 1e{}}}", "9".repeat(20));
    assert_eq!(b.dispatch(Method::Post, "/session/s1/url", &body).unwrap_err().status, ErrorStatus::UnknownError);
    let deep = format!("{}{}", "[".repeat(5000), "]".repeat(5000));
    assert_eq!(b.dispatch(Method::Post, "/session", &deep).unwrap_err().status, ErrorStatus::UnknownError);
    let m = b.dispatch(Method::Post, "/session", &format!("{}{}", "[".repeat(100), "]".repeat(100))).unwrap();
    assert_eq!(m, WebDriverMessage { session_id: None, command: WebDriverCommand::NewSession });
}

#[test]
fn malformed_body_carries_the_parser_message() {
    let expected = rustc_serialize::json::Json::from_str("not-json").unwrap_err().to_string();
    let b = get_builder().unwrap();
    let e = b.dispatch(Method::Post, "/session/abc/url", "not-json").unwrap_err();
    assert_eq!(e.message, expected);
    let e = b.from_http(Method::Post, "/session", "not-json").unwrap().unwrap_err();
    assert_eq!(e.message, expected);
}
