use skardi::server::auth::{
    answer_auth, auth_method, begin_session, find_cookie, from_auth_response, request_with_query,
    check_session, require_session, session_error, session_token, to_auth_request, verify_session, AuthOutcome,
    AuthResponse, HttpMethod, Moment, SessionInfo, SessionStep, MAX_BODY_BYTES,
};

fn no_headers() -> Vec<(String, Vec<u8>)> {
    Vec::new()
}

fn header(name: &str, value: &[u8]) -> (String, Vec<u8>) {
    (name.to_string(), value.to_vec())
}

// ─── requests ───────────────────────────────────────────────────────────

#[test]
fn to_auth_request_get_basic() {
    let request =
        to_auth_request("GET", "/api/auth/session", &no_headers(), None, Ok(vec![])).unwrap();
    assert_eq!(request.path, "/api/auth/session");
    assert_eq!(request.method, HttpMethod::Get);
}

#[test]
fn to_auth_request_post_with_body() {
    let json_body = r#"{"email":"a@b.com","password":"pass"}"#;
    let request = to_auth_request(
        "POST",
        "/api/auth/sign-up/email",
        &vec![header("content-type", b"application/json")],
        None,
        Ok(json_body.as_bytes().to_vec()),
    )
    .unwrap();
    assert_eq!(request.path, "/api/auth/sign-up/email");
    assert!(request.body.is_some());
    assert_eq!(request.body.as_deref().unwrap(), json_body.as_bytes());
}

#[test]
fn to_auth_request_empty_body_is_none() {
    let request = to_auth_request("GET", "/test", &no_headers(), None, Ok(vec![])).unwrap();
    assert!(request.body.is_none());
}

#[test]
fn to_auth_request_query_params() {
    let request = to_auth_request(
        "GET",
        "/test",
        &no_headers(),
        Some("foo=bar&baz=qux"),
        Ok(vec![]),
    )
    .unwrap();
    assert_eq!(request.query.get("foo"), Some("bar"));
    assert_eq!(request.query.get("baz"), Some("qux"));
}

#[test]
fn to_auth_request_unsupported_method() {
    let result = to_auth_request("TRACE", "/test", &no_headers(), None, Ok(vec![]));
    assert!(result.is_err());
    assert!(result.unwrap_err().contains("Unsupported HTTP method"));
}

#[test]
fn to_auth_request_all_supported_methods() {
    for method in ["GET", "POST", "PUT", "DELETE", "PATCH", "OPTIONS", "HEAD"] {
        assert!(
            to_auth_request(method, "/test", &no_headers(), None, Ok(vec![])).is_ok(),
            "method {method} should be supported"
        );
    }
}

#[test]
fn to_auth_request_headers_lowercased() {
    let request = to_auth_request(
        "GET",
        "/test",
        &vec![header("X-Custom-Header", b"value123")],
        None,
        Ok(vec![]),
    )
    .unwrap();
    assert_eq!(request.headers.get("x-custom-header"), Some("value123"));
}

#[test]
fn methods_are_read_as_they_are_written() {
    assert_eq!(auth_method("PATCH"), Ok(HttpMethod::Patch));
    assert_eq!(auth_method("get"), Err("Unsupported HTTP method: get".to_string()));
}

#[test]
fn query_strings_are_decoded() {
    let request = to_auth_request(
        "GET",
        "/",
        &no_headers(),
        Some("a+b=%C3%A9&&x=1&x=2&flag"),
        Ok(vec![]),
    )
    .unwrap();
    assert_eq!(request.query.get("a b"), Some("\u{e9}"));
    assert_eq!(request.query.get("x"), Some("2"));
    assert_eq!(request.query.get("flag"), Some(""));
    assert_eq!(request.query.get("y"), None);
}

#[test]
fn headers_that_are_not_visible_text_are_left_out() {
    let request = request_with_query(
        "GET",
        "/",
        &vec![
            header("A", b"one\ttwo"),
            header("B", b"caf\xe9"),
            header("C", b"x\x7f"),
            header("a", b"later"),
        ],
        vec![("k".to_string(), "v".to_string())],
        Ok(vec![]),
    )
    .unwrap();
    assert_eq!(request.headers.get("a"), Some("later"));
    assert_eq!(request.headers.get("b"), None);
    assert_eq!(request.headers.get("c"), None);
    assert_eq!(request.query.get("k"), Some("v"));
}

#[test]
fn a_method_is_refused_before_a_body() {
    let refused = |method: &str| {
        to_auth_request(method, "/", &no_headers(), None, Err("too long".to_string())).unwrap_err()
    };
    assert_eq!(refused("GET"), "Failed to read request body: too long");
    assert_eq!(refused("TRACE"), "Unsupported HTTP method: TRACE");
    assert_eq!(MAX_BODY_BYTES, 4 * 1024 * 1024);
}

// ─── replies ────────────────────────────────────────────────────────────

#[test]
fn from_auth_response_basic() {
    let reply = from_auth_response(AuthResponse {
        status: 200,
        headers: Vec::new(),
        body: b"ok".to_vec(),
    });
    assert_eq!(reply.status, 200);
    assert_eq!(reply.body, b"ok");
}

#[test]
fn from_auth_response_with_headers() {
    let headers = vec![
        ("x-request-id".to_string(), "abc123".to_string()),
        ("content-type".to_string(), "application/json".to_string()),
    ];
    let reply = from_auth_response(AuthResponse { status: 201, headers, body: b"{}".to_vec() });
    assert_eq!(reply.status, 201);
    let found = reply.headers.iter().find(|header| header.0 == "x-request-id").unwrap();
    assert_eq!(found.1, "abc123");
}

#[test]
fn from_auth_response_invalid_status_falls_back() {
    let reply = from_auth_response(AuthResponse {
        status: 9999,
        headers: Vec::new(),
        body: vec![],
    });
    assert_eq!(reply.status, 500);
}

#[test]
fn headers_that_cannot_be_sent_are_dropped() {
    let long = "x".repeat(65536);
    let headers = [
        ("X-Upper", "kept"),
        ("", "no name"),
        ("sp ace", "no token"),
        ("caf\u{e9}", "no token"),
        ("line", "a\nb"),
        ("tab", "a\tb"),
        ("accent", "caf\u{e9}"),
        (long.as_str(), "too long"),
        ("del", "a\u{7f}"),
    ];
    let reply = from_auth_response(AuthResponse {
        status: 99,
        headers: headers.iter().map(|(k, v)| (k.to_string(), v.to_string())).collect(),
        body: vec![1, 2],
    });
    assert_eq!(reply.status, 500);
    let sent: Vec<(&str, &str)> =
        reply.headers.iter().map(|header| (header.0.as_str(), header.1.as_str())).collect();
    assert_eq!(sent, vec![("x-upper", "kept"), ("tab", "a\tb"), ("accent", "caf\u{e9}")]);
    assert_eq!(reply.body, vec![1, 2]);
    for status in [100, 999] {
        let reply = from_auth_response(AuthResponse { status, headers: vec![], body: vec![] });
        assert_eq!(reply.status, status);
    }
}

#[test]
fn every_outcome_has_its_answer() {
    let reply = answer_auth(AuthOutcome::Disabled);
    assert_eq!((reply.status, reply.body), (404, br#"{"error":"auth not enabled"}"#.to_vec()));
    let reply = answer_auth(AuthOutcome::Refused("say \"no\"".to_string()));
    assert_eq!((reply.status, reply.body), (400, br#"{"error":"say \"no\""}"#.to_vec()));
    let reply = answer_auth(AuthOutcome::Failed("down".to_string()));
    assert_eq!((reply.status, reply.body), (500, br#"{"error":"down"}"#.to_vec()));
    let reply = answer_auth(AuthOutcome::Replied(AuthResponse {
        status: 302,
        headers: vec![("Location".to_string(), "/".to_string())],
        body: vec![],
    }));
    assert_eq!(reply.status, 302);
    assert_eq!(reply.headers, vec![("location".to_string(), "/".to_string())]);
}

// ─── sessions ───────────────────────────────────────────────────────────

fn moment(seconds: i64, nanoseconds: u32) -> Moment {
    Moment { seconds, nanoseconds }
}

#[test]
fn verify_session_no_auth_always_allows() {
    assert!(matches!(begin_session(None, None, None), SessionStep::Allow));
}

#[test]
fn verify_session_missing_token_returns_401() {
    match begin_session(Some("session"), None, None) {
        SessionStep::Deny(reply) => {
            assert_eq!(reply.status, 401);
            assert_eq!(reply.body, br#"{"error":"Authentication required"}"#);
            assert_eq!(
                reply.headers,
                vec![("Content-Type".to_string(), "application/json".to_string())]
            );
        }
        other => panic!("{other:?}"),
    }
}

#[test]
fn verify_session_invalid_bearer_returns_401() {
    let authorization = b"Bearer bogus-token".to_vec();
    match begin_session(Some("session"), Some(&authorization), None) {
        SessionStep::LookUp { token } => assert_eq!(token, "bogus-token"),
        other => panic!("{other:?}"),
    }
    let reply = verify_session(None, moment(0, 0)).unwrap_err();
    assert_eq!(reply.status, 401);
    assert_eq!(reply.body, br#"{"error":"Invalid or expired session"}"#);
}

#[test]
fn verify_session_valid_bearer() {
    let session = SessionInfo { expires_at: moment(3600, 0), active: true };
    assert!(verify_session(Some(session), moment(0, 0)).is_ok());
}

#[test]
fn verify_session_cookie_fallback() {
    let cookie = b"other=1; session=tok; session=later".to_vec();
    match begin_session(Some("session"), None, Some(&cookie)) {
        SessionStep::LookUp { token } => assert_eq!(token, "tok"),
        other => panic!("{other:?}"),
    }
}

#[test]
fn sessions_end_at_their_moment() {
    let session = |active| SessionInfo { expires_at: moment(10, 5), active };
    assert!(verify_session(Some(session(true)), moment(10, 4)).is_ok());
    assert!(verify_session(Some(session(true)), moment(10, 5)).is_err());
    assert!(verify_session(Some(session(true)), moment(11, 0)).is_err());
    assert!(verify_session(Some(session(true)), moment(9, 999)).is_ok());
    assert!(verify_session(Some(session(false)), moment(0, 0)).is_err());
}

#[test]
fn a_bearer_token_hides_every_cookie() {
    let cookie = b"session=from-cookie".to_vec();
    let bearer = b"Bearer from-header".to_vec();
    assert_eq!(
        session_token(Some(&bearer), Some(&cookie), "session"),
        Some("from-header".to_string())
    );
    for other in ["bearer x", "Basic x", "Bearer"] {
        let header = other.as_bytes().to_vec();
        assert_eq!(
            session_token(Some(&header), Some(&cookie), "session"),
            Some("from-cookie".to_string()),
            "{other}"
        );
    }
    let invisible = b"Bearer \xff".to_vec();
    assert_eq!(
        session_token(Some(&invisible), Some(&cookie), "session"),
        Some("from-cookie".to_string())
    );
    let empty = b"Bearer ".to_vec();
    assert_eq!(session_token(Some(&empty), Some(&cookie), "session"), Some(String::new()));
}

#[test]
fn cookies_are_read_part_by_part() {
    let token = |header: &str| session_token(None, Some(&header.as_bytes().to_vec()), "s");
    assert_eq!(token(" ; ;s = a b ;"), Some("a b".to_string()));
    assert_eq!(token("s; =x; s=; s==y"), Some("=y".to_string()));
    assert_eq!(token("S=x"), None);
    assert_eq!(token("s=\"quoted\""), Some("\"quoted\"".to_string()));
    assert_eq!(token("s=%20"), Some("%20".to_string()));
    assert_eq!(token(""), None);
}

#[test]
fn the_first_cookie_with_a_value_counts() {
    let cookie = |name: &str, value: &str| Some((name.to_string(), value.to_string()));
    let cookies = vec![None, cookie("s", ""), cookie("t", "no"), cookie("s", "yes"), cookie("s", "late")];
    assert_eq!(find_cookie(&cookies, "s"), Some("yes".to_string()));
    assert_eq!(find_cookie(&cookies, "u"), None);
}

#[test]
fn refusals_keep_their_status_and_message_in_the_envelope() {
    let refusal = verify_session(None, moment(0, 0)).unwrap_err();
    let error = require_session(&refusal);
    assert_eq!(error.status, 401);
    assert_eq!(error.message, "Invalid or expired session");
    assert_eq!(error.error_type, "unauthorized");
    assert!(error.details.is_none());
    let mut long = answer_auth(AuthOutcome::Failed("x".repeat(600)));
    assert_eq!(require_session(&long).message, "Authentication required");
    assert_eq!(require_session(&long).status, 500);
    long.body = b"{\"error\": 7}".to_vec();
    assert_eq!(require_session(&long).message, "Authentication required");
    long.body = b"[1]".to_vec();
    assert_eq!(require_session(&long).message, "Authentication required");
    assert_eq!(session_error(403, Some("no".to_string())).message, "no");
    assert_eq!(session_error(403, None).message, "Authentication required");
}

#[test]
fn an_expired_session_says_so_in_the_envelope() {
    let session = SessionInfo { expires_at: moment(5, 0), active: true };
    assert!(check_session(Some(session), moment(4, 0)).is_ok());
    let error = check_session(None, moment(4, 0)).unwrap_err();
    assert_eq!(error.status, 401);
    assert_eq!(error.message, "Invalid or expired session");
    assert_eq!(error.error_type, "unauthorized");
}

#[test]
fn missing_session_returns_401_when_auth_enabled() {
    match begin_session(Some("better-auth.session-token"), None, None) {
        SessionStep::Deny(refusal) => assert_eq!(require_session(&refusal).status, 401),
        other => panic!("{other:?}"),
    }
}
