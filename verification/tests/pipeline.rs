//! The middleware chain end to end: exclusions, the auth gate, token
//! validation, error normalization and the canonical envelope.

use feedcore::exclusion::ExcludedPaths;
use feedcore::exclusion::HttpMethod;
use feedcore::gate::AuthLayer;
use feedcore::gate::GateDecision;
use feedcore::identity::validate_token;
use feedcore::identity::generate_token;
use feedcore::identity::AuthError;
use feedcore::identity::Claims;
use feedcore::normalize::contain_panic;
use feedcore::normalize::method_not_allowed_error;
use feedcore::normalize::normalize_response;
use feedcore::normalize::not_found_error;
use feedcore::HttpError;

fn standard_gate() -> AuthLayer {
    AuthLayer::new().except(ExcludedPaths::new())
}

#[test]
fn excluded_get_posts_bypasses_gate_without_credential() {
    let gate = standard_gate();
    match gate.decide(HttpMethod::Get, "/posts", None, "secret", 1000) {
        GateDecision::Forward(None) => {}
        _ => panic!("excluded route must forward without identity"),
    }
}

#[test]
fn excluded_route_bypasses_gate_with_garbage_credential() {
    let gate = standard_gate();
    match gate.decide(
        HttpMethod::Get,
        "/posts",
        Some("Bearer utterly-bogus"),
        "secret",
        1000,
    ) {
        GateDecision::Forward(None) => {}
        _ => panic!("excluded route must forward regardless of credential"),
    }
}

#[test]
fn excluded_parameterized_route_matches_concrete_path() {
    let gate = standard_gate();
    match gate.decide(HttpMethod::Get, "/posts/abc123", None, "secret", 1000) {
        GateDecision::Forward(None) => {}
        _ => panic!("parameterized exclusion must match a concrete segment"),
    }
    match gate.decide(HttpMethod::Get, "/posts/user/u9", None, "secret", 1000) {
        GateDecision::Forward(None) => {}
        _ => panic!("two-parameter exclusion must match"),
    }
}

#[test]
fn empty_parameter_segment_is_not_excluded() {
    let gate = standard_gate();
    match gate.decide(HttpMethod::Get, "/posts/", None, "secret", 1000) {
        GateDecision::Reject(e) => assert_eq!(e.status, 401),
        _ => panic!("a parameter must not match an empty segment"),
    }
}

#[test]
fn login_post_is_excluded_but_other_posts_are_not() {
    let gate = standard_gate();
    match gate.decide(HttpMethod::Post, "/auth/login", None, "secret", 1000) {
        GateDecision::Forward(None) => {}
        _ => panic!("login must be excluded"),
    }
    match gate.decide(HttpMethod::Post, "/comments", None, "secret", 1000) {
        GateDecision::Reject(e) => {
            assert_eq!(e.status, 401);
            assert_eq!(e.message, "Unauthorized");
        }
        _ => panic!("a non-excluded POST without credential must be rejected"),
    }
}

#[test]
fn unknown_method_is_never_excluded() {
    let gate = standard_gate();
    match gate.decide(HttpMethod::Other, "/posts", None, "secret", 1000) {
        GateDecision::Reject(e) => assert_eq!(e.status, 401),
        _ => panic!("methods without templates must not be excluded"),
    }
}

#[test]
fn missing_credential_yields_canonical_401_envelope() {
    let gate = standard_gate();
    let e = match gate.decide(HttpMethod::Post, "/comments", None, "secret", 1000) {
        GateDecision::Reject(e) => e,
        _ => panic!("expected rejection"),
    };
    let body = e.to_json();
    let v: serde_json::Value = serde_json::from_str(&body).expect("envelope must be JSON");
    assert_eq!(v.get("status").and_then(|s| s.as_u64()), Some(401));
    assert_eq!(
        v.get("message").and_then(|m| m.as_str()),
        Some("Unauthorized")
    );
    assert!(v.get("errors").is_none());
}

#[test]
fn tampered_token_yields_401() {
    let token = generate_token("user1", "secret", 1000, 3600).expect("token");
    let mut tampered = token.clone();
    tampered.push('x');
    let gate = standard_gate();
    let header = format!("Bearer {}", tampered);
    match gate.decide(HttpMethod::Post, "/comments", Some(&header), "secret", 1000) {
        GateDecision::Reject(e) => {
            assert_eq!(e.status, 401);
            assert_eq!(e.message, "Unauthorized");
        }
        _ => panic!("a tampered token must be rejected"),
    }
}

#[test]
fn valid_token_forwards_with_identity() {
    let token = generate_token("user1", "secret", 1000, 3600).expect("token");
    let gate = standard_gate();
    let header = format!("Bearer {}", token);
    match gate.decide(HttpMethod::Post, "/comments", Some(&header), "secret", 1050) {
        GateDecision::Forward(Some(user)) => assert_eq!(user.0, "user1"),
        _ => panic!("a valid token must forward with the resolved identity"),
    }
}

#[test]
fn header_without_token_word_is_rejected() {
    let gate = standard_gate();
    match gate.decide(HttpMethod::Post, "/comments", Some("Bearer"), "secret", 1000) {
        GateDecision::Reject(e) => assert_eq!(e.status, 401),
        _ => panic!("a header without a token must be rejected"),
    }
}

#[test]
fn token_roundtrip_validates() {
    let token = generate_token("someone", "topsecret", 5000, 600).expect("token");
    assert_eq!(
        validate_token(&token, "topsecret", 5100),
        Ok("someone".to_string())
    );
}

#[test]
fn wrong_secret_fails_validation() {
    let token = generate_token("someone", "topsecret", 5000, 600).expect("token");
    assert_eq!(
        validate_token(&token, "othersecret", 5100),
        Err(AuthError::InvalidCredential)
    );
}

#[test]
fn expired_token_fails_like_malformed_token() {
    // The token's embedded expiry (1000 + 60) lies before the validation
    // clock; the verdict must be indistinguishable from a malformed token's.
    let token = generate_token("user1", "secret", 1000, 60).expect("token");
    let expired = validate_token(&token, "secret", 2000);
    let malformed = validate_token("not-even-a-token", "secret", 2000);
    assert_eq!(expired, Err(AuthError::InvalidCredential));
    assert_eq!(expired, malformed);
}

#[test]
fn claims_carry_subject_and_expiry() {
    let c = Claims::new("u77", 1234, 600);
    assert_eq!(c.sub, "u77");
    assert_eq!(c.iat, 1234);
    assert_eq!(c.exp, 1834);
}

#[test]
fn non_error_response_passes_through() {
    assert!(normalize_response(200, &b"hello".to_vec()).is_none());
    assert!(normalize_response(204, &Vec::new()).is_none());
    assert!(normalize_response(301, &b"{}".to_vec()).is_none());
}

#[test]
fn structured_error_body_keeps_its_message() {
    let body = b"{\"message\":\"boom\",\"detail\":42}".to_vec();
    let e = normalize_response(404, &body).expect("error status must normalize");
    assert_eq!(e.status, 404);
    assert_eq!(e.message, "boom");
    assert_eq!(e.to_json(), "{\"status\":404,\"message\":\"boom\"}");
}

#[test]
fn structured_error_body_without_message_gets_placeholder() {
    let body = b"{\"detail\":\"irrelevant\"}".to_vec();
    let e = normalize_response(500, &body).expect("error status must normalize");
    assert_eq!(e.message, "Unknown server error");
}

#[test]
fn unstructured_error_body_is_wrapped_verbatim() {
    let body = b"something broke".to_vec();
    let e = normalize_response(502, &body).expect("error status must normalize");
    assert_eq!(e.status, 502);
    assert_eq!(e.message, "something broke");
}

#[test]
fn caught_panic_becomes_clean_500_envelope() {
    let e = contain_panic(Some("worker died".to_string()));
    assert_eq!(e.status, 500);
    assert_eq!(e.message, "worker died");
    let generic = contain_panic(None);
    assert_eq!(generic.status, 500);
    assert_eq!(generic.message, "Internal Server Error");
    let v: serde_json::Value = serde_json::from_str(&generic.to_json()).expect("JSON");
    assert_eq!(v.get("status").and_then(|s| s.as_u64()), Some(500));
}

#[test]
fn fallback_envelopes_are_canonical() {
    assert_eq!(
        not_found_error().to_json(),
        "{\"status\":404,\"message\":\"Not Found\"}"
    );
    assert_eq!(
        method_not_allowed_error().to_json(),
        "{\"status\":405,\"message\":\"Method not allowed\"}"
    );
}

#[test]
fn envelope_escapes_special_characters() {
    let e = HttpError::new(400, "a\"b\\c\nd".to_string());
    assert_eq!(
        e.to_json(),
        "{\"status\":400,\"message\":\"a\\\"b\\\\c\\u000ad\"}"
    );
    let v: serde_json::Value = serde_json::from_str(&e.to_json()).expect("JSON");
    assert_eq!(v.get("message").and_then(|m| m.as_str()), Some("a\"b\\c\nd"));
}
