use http::header::{HeaderMap, HeaderName, HeaderValue};
use lowdown::matcher::{
    anchor, destination_host_fragment, from_parts, headers_to_map, match_header, matches_host,
    matches_method, matches_request, matches_uri, matches_uri_regex, matches_uri_starts_with,
    whole_match, RequestContext,
};
use lowdown::settings::Settings;

fn pairs(items: &[(&str, &str)]) -> Vec<(String, String)> {
    items.iter().map(|(name, value)| (name.to_string(), value.to_string())).collect()
}

fn context(method: &str, uri: &str, headers: &[(&str, &str)]) -> RequestContext {
    RequestContext::new(method.to_string(), uri.to_string(), pairs(headers))
}

#[test]
fn default_settings_match_every_request() {
    let settings = Settings::default();
    assert!(matches_request(&context("GET", "/", &[]), &settings));
    assert!(matches_request(&context("DELETE", "/a/b?c=d", &[("x-user-id", "abc")]), &settings));
    assert!(matches_request(&context("", "", &[]), &settings));
}

#[test]
fn uri_must_be_equal() {
    assert!(matches_uri("*", "/anything"));
    assert!(matches_uri("/a?b=1", "/a?b=1"));
    assert!(!matches_uri("/a", "/a?b=1"));
    assert!(!matches_uri("/A", "/a"));
    assert!(!matches_uri("", "/a"));
    assert!(matches_uri("", ""));
}

#[test]
fn uri_regex_must_cover_the_whole_uri() {
    assert!(matches_uri_regex("*", "/anything"));
    assert!(matches_uri_regex("/api/.*", "/api/v1/users"));
    assert!(matches_uri_regex("/api/v[0-9]+", "/api/v12"));
    assert!(!matches_uri_regex("/api", "/api/v1"));
    assert!(!matches_uri_regex("api/v1", "/api/v1"));
    assert!(!matches_uri_regex("v[0-9]", "/api/v1/users"));
    assert!(matches_uri_regex("^/api/v1$", "/api/v1"));
    assert!(matches_uri_regex("/caf.", "/café"));
    assert!(matches_uri_regex("", ""));
    assert!(!matches_uri_regex("", "/"));
}

#[test]
fn invalid_regex_matches_nothing() {
    assert!(!matches_uri_regex("(", "("));
    assert!(!matches_uri_regex("[a-", "/a"));
    assert!(!matches_uri_regex("**", "/a"));
    let mut settings = Settings::default();
    settings.match_uri_regex = "(".to_string();
    assert!(!matches_request(&context("GET", "/", &[]), &settings));
}

#[test]
fn a_whole_match_needs_a_pattern_that_compiles_and_matches_anchored() {
    assert!(whole_match(true, Some(true)));
    assert!(!whole_match(true, Some(false)));
    assert!(!whole_match(true, None));
    assert!(!whole_match(false, Some(true)));
    assert!(!whole_match(false, None));
}

#[test]
fn patterns_are_anchored_at_both_ends() {
    assert_eq!(anchor("/api/.*"), "^(?:/api/.*)$");
    assert_eq!(anchor(""), "^(?:)$");
    assert_eq!(anchor("a|b"), "^(?:a|b)$");
}

#[test]
fn every_alternative_of_a_pattern_counts() {
    assert!(matches_uri_regex("/a|/ab", "/ab"));
    assert!(matches_uri_regex("/ab|/a", "/ab"));
    assert!(matches_uri_regex("/a|/ab", "/a"));
    assert!(!matches_uri_regex("/a|/ab", "/abc"));
    assert!(!matches_uri_regex("/a|/ab", "x/a"));
    assert!(matches_uri_regex("/a.*?", "/abc"));
    assert!(matches_uri_regex("(?i)/API", "/api"));
}

#[test]
fn a_pattern_must_compile_on_its_own() {
    assert!(!matches_uri_regex("a)(?:b", "ab"));
    assert!(!matches_uri_regex(")|(", ""));
}

#[test]
fn uri_prefix() {
    assert!(matches_uri_starts_with("*", "/anything"));
    assert!(matches_uri_starts_with("/api", "/api/v1"));
    assert!(matches_uri_starts_with("/api/v1", "/api/v1"));
    assert!(matches_uri_starts_with("", "/api"));
    assert!(!matches_uri_starts_with("/api/v1/", "/api/v1"));
    assert!(!matches_uri_starts_with("api", "/api"));
    assert!(!matches_uri_starts_with("/API", "/api"));
}

#[test]
fn method_ignores_case() {
    assert!(matches_method("*", "GET"));
    assert!(matches_method("get", "GET"));
    assert!(matches_method("GeT", "get"));
    assert!(matches_method("POST", "POST"));
    assert!(!matches_method("GET", "POST"));
    assert!(!matches_method("GE", "GET"));
    assert!(!matches_method("", "GET"));
}

#[test]
fn host_is_the_text_after_the_scheme() {
    assert_eq!(destination_host_fragment("http://example.org"), Some("example.org".to_string()));
    assert_eq!(
        destination_host_fragment("https://example.org:8443/a"),
        Some("example.org:8443/a".to_string())
    );
    assert_eq!(destination_host_fragment("a://b://c"), Some("b://c".to_string()));
    assert_eq!(destination_host_fragment("http://"), Some(String::new()));
    assert_eq!(destination_host_fragment("://x"), Some("x".to_string()));
    assert_eq!(destination_host_fragment("example.org"), None);
    assert_eq!(destination_host_fragment("http:/example.org"), None);
    assert_eq!(destination_host_fragment(""), None);
}

#[test]
fn host_pattern_is_compared_with_the_destination() {
    assert!(matches_host("*", None));
    assert!(matches_host("*", Some("no url")));
    assert!(matches_host("example.org", Some("http://example.org")));
    assert!(matches_host("example.org:8080", Some("https://example.org:8080")));
    assert!(!matches_host("example.org", Some("http://example.org:8080")));
    assert!(!matches_host("example.org", Some("http://example.org/")));
    assert!(!matches_host("Example.org", Some("http://example.org")));
    assert!(!matches_host("example.org", Some("example.org")));
    assert!(!matches_host("example.org", None));
}

#[test]
fn header_pattern_needs_the_exact_value() {
    let headers = pairs(&[("x-user-id", "abc"), ("accept", "*/*")]);
    assert!(match_header(&headers, "*", "abc"));
    assert!(match_header(&headers, "x-user-id", "*"));
    assert!(match_header(&headers, "*", "*"));
    assert!(match_header(&headers, "x-user-id", "abc"));
    assert!(match_header(&headers, "X-User-Id", "abc"));
    assert!(!match_header(&headers, "x-user-id", "ABC"));
    assert!(!match_header(&headers, "x-user-id", "abcd"));
    assert!(!match_header(&headers, "x-user", "abc"));
    assert!(!match_header(&headers, "x-other", "abc"));
    assert!(!match_header(&Vec::new(), "x-user-id", "abc"));
}

#[test]
fn the_later_of_two_pairs_counts() {
    let headers = pairs(&[("x-user-id", "abc"), ("x-user-id", "def")]);
    assert!(match_header(&headers, "x-user-id", "def"));
    assert!(!match_header(&headers, "x-user-id", "abc"));
}

#[test]
fn stored_names_are_compared_as_they_are() {
    let headers = pairs(&[("X-User-Id", "abc")]);
    assert!(!match_header(&headers, "x-user-id", "abc"));
    assert!(!match_header(&headers, "X-User-Id", "abc"));
}

#[test]
fn all_criteria_must_pass() {
    let ctx = context("POST", "/api/v1/users?x=1", &[("x-user-id", "abc")]);
    let mut settings = Settings::default();
    settings.destination_url = Some("http://example.org".to_string());
    settings.match_uri = "/api/v1/users?x=1".to_string();
    settings.match_uri_regex = "/api/.*".to_string();
    settings.match_uri_starts_with = "/api".to_string();
    settings.match_method = "post".to_string();
    settings.match_host = "example.org".to_string();
    settings.match_header_name = "X-User-Id".to_string();
    settings.match_header_value = "abc".to_string();
    assert!(matches_request(&ctx, &settings));

    let mut other = settings.clone();
    other.match_uri = "/api".to_string();
    assert!(!matches_request(&ctx, &other));
    let mut other = settings.clone();
    other.match_uri_regex = "/api".to_string();
    assert!(!matches_request(&ctx, &other));
    let mut other = settings.clone();
    other.match_uri_starts_with = "/v1".to_string();
    assert!(!matches_request(&ctx, &other));
    let mut other = settings.clone();
    other.match_method = "GET".to_string();
    assert!(!matches_request(&ctx, &other));
    let mut other = settings.clone();
    other.match_host = "example.com".to_string();
    assert!(!matches_request(&ctx, &other));
    let mut other = settings.clone();
    other.destination_url = None;
    assert!(!matches_request(&ctx, &other));
    let mut other = settings.clone();
    other.match_header_value = "xyz".to_string();
    assert!(!matches_request(&ctx, &other));
}

#[test]
fn context_is_built_from_the_parts_of_a_request() {
    let mut headers = HeaderMap::new();
    headers.append(HeaderName::from_static("x-user-id"), HeaderValue::from_static("abc"));
    headers.append(HeaderName::from_static("x-user-id"), HeaderValue::from_static("def"));
    headers.append(
        HeaderName::from_bytes(b"X-Binary").unwrap(),
        HeaderValue::from_bytes(b"\xff\xfe").unwrap(),
    );
    headers.append(HeaderName::from_bytes(b"Accept").unwrap(), HeaderValue::from_static("*/*"));
    let ctx = from_parts("GET", "/a?b=c", &headers);
    assert_eq!(ctx.method, "GET");
    assert_eq!(ctx.uri, "/a?b=c");
    assert_eq!(
        ctx.headers,
        pairs(&[("x-user-id", "abc"), ("x-user-id", "def"), ("accept", "*/*")])
    );
    assert_eq!(headers_to_map(&headers), ctx.headers);
    assert!(match_header(&ctx.headers, "X-User-Id", "def"));
    assert!(match_header(&ctx.headers, "ACCEPT", "*/*"));
    assert!(!match_header(&ctx.headers, "x-binary", ""));
    assert!(headers_to_map(&HeaderMap::new()).is_empty());
}
