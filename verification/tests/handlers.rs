use rust_neon_template::config::client::{auth_failure_message, AuthStep, NeonClient};
use rust_neon_template::config::Config;
use rust_neon_template::handlers::auth::{
    auth_error_from_message, auth_failure_kind_of, decode_jwt_payload, get_me, map_auth_error, sign_in,
    sign_up, AuthFailureKind, DecodeFailure,
};
use rust_neon_template::handlers::health::{health_check, jwks_url};
use rust_neon_template::handlers::notes::{
    create_note, delete_note, get_note, note_not_found, update_note, Note,
};
use rust_neon_template::response::AppError;

fn config() -> Config {
    Config::from_values("https://auth.example/neondb/auth".into(), "https://data.example".into(), None, None)
        .unwrap()
}

fn note(id: i32, title: &str) -> Note {
    Note { id, title: title.to_string(), content: "c".to_string() }
}

fn expect_not_found(r: AppError, msg: &str) {
    match r {
        AppError::NotFound(m) => assert_eq!(m, msg),
        other => panic!("expected NotFound, got {:?}", other),
    }
}

#[test]
fn auth_failures_are_classified_by_message() {
    let cases = [
        ("HTTP status client error: 401 Unauthorized - invalid credentials", AuthFailureKind::Unauthorized),
        ("request failed: 400 Bad Request - missing email", AuthFailureKind::BadRequest),
        ("request failed: 422 Unprocessable - weak password", AuthFailureKind::BadRequest),
        ("request failed: 409 Conflict - user already exists", AuthFailureKind::BadRequest),
        ("request failed: 401 - user already exists", AuthFailureKind::BadRequest),
        ("request failed: 500 Internal - boom", AuthFailureKind::Internal),
        ("connection refused", AuthFailureKind::Internal),
        ("status: +401 x", AuthFailureKind::Unauthorized),
    ];
    for (msg, kind) in cases {
        assert_eq!(auth_failure_kind_of(msg), kind, "message {:?}", msg);
    }
}

#[test]
fn auth_error_bodies() {
    match auth_error_from_message("e: 401 Unauthorized - bad password", anyhow::Error::msg("x")) {
        AppError::Unauthorized(b) => assert_eq!(b, "bad password"),
        other => panic!("{:?}", other),
    }
    match auth_error_from_message("e: 400 x", anyhow::Error::msg("x")) {
        AppError::BadRequest(b) => assert_eq!(b, "e: 400 x"),
        other => panic!("{:?}", other),
    }
    match auth_error_from_message("a - b - c", anyhow::Error::msg("x")) {
        AppError::Internal(e) => assert_eq!(e.to_string(), "x"),
        other => panic!("{:?}", other),
    }
    match map_auth_error(anyhow::Error::msg("sign-up: 422 Unprocessable - email already exists")) {
        AppError::BadRequest(b) => assert_eq!(b, "email already exists"),
        other => panic!("{:?}", other),
    }
    match map_auth_error(anyhow::Error::msg("timeout")) {
        AppError::Internal(e) => assert_eq!(e.to_string(), "timeout"),
        other => panic!("{:?}", other),
    }
}

#[test]
fn sign_up_and_sign_in_answers() {
    assert_eq!(sign_up(Ok("tok".to_string())).unwrap(), "tok");
    match sign_in(Err(anyhow::Error::msg("x: 401 Unauthorized - wrong password"))) {
        Err(AppError::Unauthorized(b)) => assert_eq!(b, "wrong password"),
        other => panic!("{:?}", other),
    }
}

#[test]
fn decode_failure_texts() {
    assert_eq!(DecodeFailure::InvalidByte(3, 33).message(), "Invalid symbol 33, offset 3.");
    assert_eq!(DecodeFailure::InvalidLength(5).message(), "Invalid input length: 5");
    assert_eq!(DecodeFailure::InvalidLastSymbol(10, 66).message(), "Invalid last symbol 66, offset 10.");
    assert_eq!(DecodeFailure::InvalidPadding.message(), "Invalid padding");
}

#[test]
fn jwt_payload_decoding() {
    let token = "hdr.eyJzdWIiOiIxMjMiLCJlbWFpbCI6ImFAYi5jIn0.sig";
    let payload = decode_jwt_payload(token).unwrap();
    assert_eq!(payload["sub"], serde_json::Value::String("123".to_string()));
    assert_eq!(payload["email"], serde_json::Value::String("a@b.c".to_string()));
    assert_eq!(decode_jwt_payload("no-dots").unwrap_err(), "missing payload segment");
    assert_eq!(decode_jwt_payload("a.!!!!.c").unwrap_err(), "base64 decode failed: Invalid symbol 33, offset 0.");
    assert!(decode_jwt_payload("a.bm90IGpzb24.c").unwrap_err().starts_with("json decode failed: "));
}

#[test]
fn get_me_reads_the_token_payload() {
    let c = NeonClient::new(&config());
    match get_me(&c) {
        Err(AppError::Unauthorized(m)) => assert_eq!(m, "not authenticated"),
        other => panic!("{:?}", other),
    }
    let c = NeonClient::with_token(&config(), "opaque".to_string());
    match get_me(&c) {
        Err(AppError::Unauthorized(m)) => assert_eq!(m, "invalid token: missing payload segment"),
        other => panic!("{:?}", other),
    }
    let c = NeonClient::with_token(&config(), "h.eyJzdWIiOiIxMjMiLCJlbWFpbCI6ImFAYi5jIn0.s".to_string());
    let user = get_me(&c).unwrap();
    assert_eq!(user["sub"], serde_json::Value::String("123".to_string()));
}

#[test]
fn health_reports() {
    let r = health_check(Some(200), Some(404));
    assert_eq!((r.status.as_str(), r.auth.as_str(), r.data_api.as_str()), ("ok", "ok", "ok"));
    let r = health_check(Some(503), Some(200));
    assert_eq!((r.status.as_str(), r.auth.as_str(), r.data_api.as_str()), ("degraded", "unreachable", "ok"));
    let r = health_check(Some(204), Some(500));
    assert_eq!((r.status.as_str(), r.auth.as_str(), r.data_api.as_str()), ("degraded", "ok", "unreachable"));
    let r = health_check(None, None);
    assert_eq!((r.status.as_str(), r.auth.as_str(), r.data_api.as_str()), ("degraded", "unreachable", "unreachable"));
    let r = health_check(Some(300), Some(499));
    assert_eq!((r.status.as_str(), r.auth.as_str(), r.data_api.as_str()), ("degraded", "unreachable", "ok"));
    assert_eq!(jwks_url(&config()), "https://auth.example/neondb/auth/.well-known/jwks.json");
}

#[test]
fn note_handlers() {
    expect_not_found(create_note(vec![]).unwrap_err(), "no note returned");
    assert_eq!(create_note(vec![note(1, "a"), note(2, "b")]).unwrap(), note(1, "a"));

    assert_eq!(get_note(1, Some(note(1, "a"))).unwrap(), note(1, "a"));
    expect_not_found(get_note(9999, None).unwrap_err(), "note 9999 not found");

    assert_eq!(update_note(1, vec![note(1, "Updated")]).unwrap(), vec![note(1, "Updated")]);
    expect_not_found(update_note(999999, vec![]).unwrap_err(), "note 999999 not found");

    assert!(delete_note(1, true).is_ok());
    expect_not_found(delete_note(999999, false).unwrap_err(), "note 999999 not found");
    expect_not_found(note_not_found(-3), "note -3 not found");
}

#[test]
fn refused_auth_answers_keep_their_status() {
    assert_eq!(auth_failure_message("sign_in", 200, "OK", "{}"), None);
    assert_eq!(auth_failure_message("sign_up", 204, "No Content", ""), None);

    let body = r#"{"code":"INVALID_EMAIL_OR_PASSWORD","message":"Invalid email or password"}"#;
    let msg = auth_failure_message("sign_in", 401, "Unauthorized", body).unwrap();
    assert_eq!(msg, format!("sign_in: 401 Unauthorized - {}", body));
    match map_auth_error(anyhow::Error::msg(msg)) {
        AppError::Unauthorized(b) => assert_eq!(b, body),
        other => panic!("{:?}", other),
    }

    let body = r#"{"message":"User already exists - use another email"}"#;
    let msg = auth_failure_message("sign_up", 422, "Unprocessable Entity", body).unwrap();
    match map_auth_error(anyhow::Error::msg(msg)) {
        AppError::BadRequest(b) => assert_eq!(b, r#"{"message":"User already exists"#),
        other => panic!("{:?}", other),
    }

    let msg = auth_failure_message("sign_in", 503, "Service Unavailable", "down").unwrap();
    assert!(matches!(map_auth_error(anyhow::Error::msg(msg)), AppError::Internal(_)));
}

#[test]
fn wrong_password_is_unauthorized() {
    let mut c = NeonClient::new(&config());
    let body = r#"{"code":"INVALID_EMAIL_OR_PASSWORD","message":"Invalid email or password"}"#;
    let err = match c.on_auth_answer("sign_in", 401, "Unauthorized", body, None) {
        AuthStep::Failed(e) => e,
        other => panic!("{:?}", other),
    };
    let e = sign_in(Err(err)).unwrap_err();
    match &e {
        AppError::Unauthorized(m) => assert_eq!(m, body),
        other => panic!("{:?}", other),
    }
    let parts = e.response_parts();
    assert_eq!((parts.status, parts.code.as_str()), (401, "UNAUTHORIZED"));
}

#[test]
fn only_the_payload_segment_matters() {
    let a = decode_jwt_payload("h1.eyJzdWIiOiIxMjMiLCJlbWFpbCI6ImFAYi5jIn0.s1").unwrap();
    let b = decode_jwt_payload("other.eyJzdWIiOiIxMjMiLCJlbWFpbCI6ImFAYi5jIn0.x.y").unwrap();
    assert_eq!(a, b);
    let direct: serde_json::Value = serde_json::from_slice(br#"{"sub":"123","email":"a@b.c"}"#).unwrap();
    assert_eq!(a, direct);
    assert_eq!(decode_jwt_payload("a.bm90IGpzb24.b").unwrap_err(), decode_jwt_payload("c.bm90IGpzb24.d").unwrap_err());
}
