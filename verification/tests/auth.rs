use axum::http::{HeaderMap, HeaderValue, StatusCode};
use std::sync::Arc;
use vera_serve::AppState;
use vera_serve::auth::{byte_difference, check_auth, check_token, constant_time_eq};
use vera_serve::http::authorization;
use vera_serve::state::InferenceBackend;
use vera_serve::text::strip_prefix;

fn server(api_key: Option<&str>) -> AppState<&'static str> {
    AppState {
        api_key: api_key.map(|key| key.to_string()),
        config: Arc::new("config"),
        backend: InferenceBackend::Api,
        model_name: "jina".to_string(),
        reranker_available: true,
        idle_timeout: None,
    }
}

fn headers(authorization: &str) -> HeaderMap {
    let mut headers = HeaderMap::new();
    headers.insert("authorization", HeaderValue::from_str(authorization).unwrap());
    headers
}

#[test]
fn texts_compare_by_their_bytes() {
    assert!(constant_time_eq("", ""));
    assert!(constant_time_eq("secret", "secret"));
    assert!(constant_time_eq("schlüssel", "schlüssel"));
    assert!(!constant_time_eq("secret", "secreT"));
    assert!(!constant_time_eq("Secret", "secret"));
    assert!(!constant_time_eq("secret", "secre"));
    assert!(!constant_time_eq("", "s"));
    assert!(!constant_time_eq("é", "e"));
}

#[test]
fn differences_of_all_bytes_are_joined() {
    assert_eq!(byte_difference(b"", b""), 0);
    assert_eq!(byte_difference(b"same", b"same"), 0);
    assert_eq!(byte_difference(&[1, 0, 0], &[0, 0, 0]), 1);
    assert_eq!(byte_difference(&[1, 0, 8], &[0, 2, 0]), 11);
    assert_eq!(byte_difference(&[0xff, 7], &[0x0f, 6]), 0xf1);
}

#[test]
fn prefix_is_stripped_only_where_it_stands() {
    assert_eq!(strip_prefix("Bearer abc", "Bearer "), Some("abc"));
    assert_eq!(strip_prefix("Bearer ", "Bearer "), Some(""));
    assert_eq!(strip_prefix("Bearer", "Bearer "), None);
    assert_eq!(strip_prefix("bearer abc", "Bearer "), None);
    assert_eq!(strip_prefix("äöü", "ä"), Some("öü"));
    assert_eq!(strip_prefix("x", ""), Some("x"));
}

#[test]
fn authorization_header_is_read_in_any_case() {
    assert_eq!(authorization(&HeaderMap::new()), None);
    assert_eq!(authorization(&headers("Bearer abc")), Some("Bearer abc"));
    let mut upper = HeaderMap::new();
    upper.insert(
        axum::http::HeaderName::from_bytes(b"AUTHORIZATION").unwrap(),
        HeaderValue::from_static("Basic x"),
    );
    assert_eq!(authorization(&upper), Some("Basic x"));
}

#[test]
fn first_authorization_header_counts() {
    let mut two = headers("Bearer one");
    two.append("authorization", HeaderValue::from_static("Bearer two"));
    assert_eq!(authorization(&two), Some("Bearer one"));
    assert!(check_auth(&server(Some("one")), &two).is_none());
    assert!(check_auth(&server(Some("two")), &two).is_some());
}

#[test]
fn header_beyond_visible_ascii_is_no_text() {
    let mut opaque = HeaderMap::new();
    opaque.insert("authorization", HeaderValue::from_bytes(b"Bearer caf\xc3\xa9").unwrap());
    assert_eq!(authorization(&opaque), None);
    assert!(check_auth(&server(Some("caf\u{e9}")), &opaque).is_some());
    let mut tab = HeaderMap::new();
    tab.insert("authorization", HeaderValue::from_bytes(b"Bearer a\tb").unwrap());
    assert_eq!(authorization(&tab), Some("Bearer a\tb"));
}

#[test]
fn server_without_key_lets_all_in() {
    assert!(check_auth(&server(None), &HeaderMap::new()).is_none());
    assert!(check_auth(&server(None), &headers("Bearer anything")).is_none());
}

#[test]
fn server_with_key_wants_exactly_its_token() {
    let state = server(Some("secret"));
    assert!(check_auth(&state, &headers("Bearer secret")).is_none());
    for wrong in ["Bearer secre", "Bearer secret ", "bearer secret", "secret", "Basic secret"] {
        assert!(check_auth(&state, &headers(wrong)).is_some());
    }
    assert!(check_auth(&state, &HeaderMap::new()).is_some());
}

#[test]
fn refusal_is_unauthorized() {
    let refusal = check_auth(&server(Some("secret")), &HeaderMap::new()).unwrap();
    assert_eq!(refusal.status, StatusCode::UNAUTHORIZED.as_u16());
    assert_eq!(refusal.body.error, "invalid or missing API key");
}

#[test]
fn token_is_checked_against_the_key() {
    let key = Some("secret".to_string());
    assert!(check_token(&key, Some("Bearer secret")).is_none());
    assert_eq!(check_token(&key, Some("Bearer Secret")).unwrap().status, 401);
    assert_eq!(check_token(&key, None).unwrap().status, 401);
    assert!(check_token(&None, None).is_none());
    assert!(check_token(&Some(String::new()), None).is_none());
}
