use cloud_datastore_rs::auth::{AUTH_SCOPE, HEADER_AUTHORIZATION, HEADER_REQUEST_PARAMS};
use cloud_datastore_rs::{AuthError, AuthInterceptor};

#[derive(Debug, PartialEq)]
struct Handle {
    generation: u32,
    sent: Vec<String>,
}

impl Clone for Handle {
    fn clone(&self) -> Self {
        Handle { generation: self.generation + 1, sent: self.sent.clone() }
    }
}

fn handle() -> Handle {
    Handle { generation: 0, sent: vec![] }
}

#[test]
fn header_names_and_scope() {
    assert_eq!(HEADER_AUTHORIZATION, "authorization");
    assert_eq!(HEADER_REQUEST_PARAMS, "x-goog-request-params");
    assert_eq!(AUTH_SCOPE, "https://www.googleapis.com/auth/cloud-platform");
}

#[test]
fn request_params_name_the_project() {
    let interceptor = AuthInterceptor::new(handle(), "my-project", None);
    assert_eq!(interceptor.request_params(), "project_id=my-project");
}

#[test]
fn request_params_name_the_database_where_there_is_one() {
    let interceptor = AuthInterceptor::new(handle(), "my-project", Some("books"));
    assert_eq!(interceptor.request_params(), "project_id=my-project&database_id=books");
    let interceptor = AuthInterceptor::new(handle(), "p", Some(""));
    assert_eq!(interceptor.request_params(), "project_id=p&database_id=");
}

#[test]
fn call_with_a_token_carries_both_headers() {
    let mut interceptor = AuthInterceptor::new(handle(), "p", Some("d"));
    let sent = interceptor.call().authorize(Ok("abc.def")).unwrap();
    assert_eq!(sent.authorization.as_bytes(), b"Bearer abc.def");
    assert_eq!(sent.authorization.to_str().unwrap(), "Bearer abc.def");
    assert_eq!(sent.request_params.as_bytes(), b"project_id=p&database_id=d");
    assert!(!sent.authorization.is_sensitive());
}

#[test]
fn call_without_a_token_is_given_up() {
    let mut interceptor = AuthInterceptor::new(handle(), "p", None);
    let error = interceptor.call().authorize(Err("no credentials".to_string())).unwrap_err();
    assert!(matches!(error, AuthError::Token(ref message) if message == "no credentials"));
}

#[test]
fn token_with_a_control_character_is_refused() {
    for bad in ["abc\ndef", "abc\r", "\u{0}", "abc\u{7f}", "\u{1f}"] {
        let mut interceptor = AuthInterceptor::new(handle(), "p", None);
        let error = interceptor.call().authorize(Ok(bad)).unwrap_err();
        assert!(matches!(error, AuthError::InvalidHeader("authorization")), "{:?}", bad);
    }
}

#[test]
fn project_with_a_control_character_is_refused() {
    let mut interceptor = AuthInterceptor::new(handle(), "p\n", None);
    let error = interceptor.call().authorize(Ok("abc")).unwrap_err();
    assert!(matches!(error, AuthError::InvalidHeader("x-goog-request-params")));
    let mut interceptor = AuthInterceptor::new(handle(), "p", Some("d\u{7f}"));
    let error = interceptor.call().authorize(Ok("abc")).unwrap_err();
    assert!(matches!(error, AuthError::InvalidHeader("x-goog-request-params")));
}

#[test]
fn authorization_header_is_checked_first() {
    let mut interceptor = AuthInterceptor::new(handle(), "p\n", None);
    let error = interceptor.call().authorize(Ok("a\nb")).unwrap_err();
    assert!(matches!(error, AuthError::InvalidHeader("authorization")));
}

#[test]
fn tab_and_text_beyond_ascii_pass() {
    let mut interceptor = AuthInterceptor::new(handle(), "projet-\u{e9}t\u{e9}", None);
    let sent = interceptor.call().authorize(Ok("a\tb \u{4e16}~")).unwrap();
    assert_eq!(sent.authorization.as_bytes(), "Bearer a\tb \u{4e16}~".as_bytes());
    assert_eq!(sent.request_params.as_bytes(), "project_id=projet-\u{e9}t\u{e9}".as_bytes());
}

#[test]
fn empty_token_gives_a_bare_scheme() {
    let mut interceptor = AuthInterceptor::new(handle(), "p", None);
    let sent = interceptor.call().authorize(Ok("")).unwrap();
    assert_eq!(sent.authorization.as_bytes(), b"Bearer ");
}

#[test]
fn each_call_takes_the_handle_and_leaves_a_clone() {
    let mut interceptor = AuthInterceptor::new(handle(), "p", None);
    let first = interceptor.call().authorize(Ok("t1")).unwrap();
    assert_eq!(first.inner.generation, 0);
    assert_eq!(interceptor.inner_mut().generation, 1);
    let second = interceptor.call().authorize(Ok("t2")).unwrap();
    assert_eq!(second.inner.generation, 1);
    assert_eq!(interceptor.inner_mut().generation, 2);
}

#[test]
fn what_a_call_does_to_its_handle_stays_with_the_call() {
    let mut interceptor = AuthInterceptor::new(handle(), "p", None);
    let mut first = interceptor.call().authorize(Ok("t1")).unwrap();
    first.inner.sent.push("first".to_string());
    let second = interceptor.call().authorize(Ok("t2")).unwrap();
    assert!(second.inner.sent.is_empty());
    assert!(interceptor.inner_mut().sent.is_empty());
    assert_eq!(first.inner.sent, vec!["first".to_string()]);
}

#[test]
fn two_calls_in_flight_keep_their_own_headers() {
    let mut facade_a = AuthInterceptor::new(handle(), "shared-project", None);
    let mut facade_b = facade_a.clone();
    let call_a = facade_a.call();
    let call_b = facade_b.call();
    // The token source answers the second call first.
    let sent_b = call_b.authorize(Ok("token-b")).unwrap();
    let sent_a = call_a.authorize(Ok("token-a")).unwrap();
    assert_eq!(sent_a.authorization.as_bytes(), b"Bearer token-a");
    assert_eq!(sent_b.authorization.as_bytes(), b"Bearer token-b");
    assert_eq!(sent_a.request_params.as_bytes(), b"project_id=shared-project");
    assert_eq!(sent_b.request_params.as_bytes(), b"project_id=shared-project");
}

#[test]
fn a_failed_call_leaves_the_next_one_alone() {
    let mut interceptor = AuthInterceptor::new(handle(), "p", None);
    assert!(interceptor.call().authorize(Ok("bad\n")).is_err());
    assert!(interceptor.call().authorize(Err("down".to_string())).is_err());
    let sent = interceptor.call().authorize(Ok("good")).unwrap();
    assert_eq!(sent.authorization.as_bytes(), b"Bearer good");
    assert_eq!(interceptor.request_params(), "project_id=p");
}

#[test]
fn clone_of_an_interceptor_shares_the_routing_parameters() {
    let mut interceptor = AuthInterceptor::new(handle(), "p", Some("d"));
    let mut copy = interceptor.clone();
    assert_eq!(copy.request_params(), interceptor.request_params());
    assert_eq!(copy.inner_mut().generation, interceptor.inner_mut().generation + 1);
}
