use rust_neon_template::config::Config;
use rust_neon_template::error;
use rust_neon_template::models::auth::{AuthResponse, Session, SessionResponse};
use rust_neon_template::response::{response_log_level, AppError, ErrorResponse, LogLevel};
use rust_neon_template::services::auth::NeonAuthClient;
use rust_neon_template::config::client::{HttpHeader, HttpMethod};

fn parts(e: AppError) -> (u16, String, String) {
    let ErrorResponse { status, code, message } = e.response_parts();
    (status, code, message)
}

#[test]
fn error_table() {
    assert_eq!(parts(AppError::BadRequest("bad".into())), (400, "BAD_REQUEST".into(), "bad".into()));
    assert_eq!(parts(AppError::Unauthorized("who".into())), (401, "UNAUTHORIZED".into(), "who".into()));
    assert_eq!(parts(AppError::NotFound("note 9999 not found".into())), (404, "NOT_FOUND".into(), "note 9999 not found".into()));
    assert_eq!(
        parts(AppError::Internal(anyhow::Error::msg("db password leaked"))),
        (500, "INTERNAL_ERROR".into(), "an internal error occurred".into())
    );
    match AppError::from(anyhow::Error::msg("x")) {
        AppError::Internal(e) => assert_eq!(e.to_string(), "x"),
        other => panic!("{:?}", other),
    }
}

#[test]
fn plain_error_replies() {
    let r = error::AppError::NotFound("gone".into()).reply_parts();
    assert_eq!((r.status, r.code.as_str(), r.message.as_str()), (404, "NOT_FOUND", "gone"));
    let r = error::AppError::Internal(anyhow::Error::msg("secret")).reply_parts();
    assert_eq!(
        (r.status, r.code.as_str(), r.message.as_str()),
        (500, "INTERNAL_ERROR", "an internal error occurred")
    );
    let r = error::AppError::BadRequest("b".into()).reply_parts();
    assert_eq!((r.status, r.code.as_str()), (400, "BAD_REQUEST"));
    let r = error::AppError::Unauthorized("u".into()).reply_parts();
    assert_eq!((r.status, r.code.as_str()), (401, "UNAUTHORIZED"));
    assert!(matches!(error::AppError::from(anyhow::Error::msg("x")), error::AppError::Internal(_)));
}

#[test]
fn auth_service_flow() {
    let config = Config::from_values("https://auth.example".into(), "https://data.example".into(), None, None).unwrap();
    let mut c = NeonAuthClient::new(&config);
    assert_eq!(c.token(), None);
    assert!(c.session_request().is_none());
    assert!(c.sign_out_request().is_none());
    let r = c.sign_up_request();
    assert_eq!((r.method, r.url.as_str()), (HttpMethod::Post, "https://auth.example/api/auth/sign-up/email"));
    assert!(r.headers.is_empty());
    assert_eq!(c.sign_in_request().url, "https://auth.example/api/auth/sign-in/email");

    c.record_auth_response(&AuthResponse { session: Session { token: "s1".into() } });
    assert_eq!(c.token(), Some("s1"));
    let q = c.session_request().unwrap();
    assert_eq!((q.method, q.url.as_str()), (HttpMethod::Get, "https://auth.example/api/auth/get-session"));
    assert_eq!(q.headers, vec![HttpHeader { name: "Authorization".into(), value: "Bearer s1".into() }]);

    c.record_session_response(&SessionResponse { session: None });
    assert_eq!(c.token(), Some("s1"));
    c.record_session_response(&SessionResponse { session: Some(Session { token: "s2".into() }) });
    assert_eq!(c.token(), Some("s2"));

    let q = c.sign_out_request().unwrap();
    assert_eq!(q.url, "https://auth.example/api/auth/sign-out");
    assert_eq!(q.headers[0].value, "Bearer s2");
    c.finish_sign_out();
    assert_eq!(c.token(), None);

    let c = NeonAuthClient::with_token(&config, "given".into());
    assert_eq!(c.token(), Some("given"));
}

#[test]
fn log_levels_follow_status() {
    assert_eq!(response_log_level(200), LogLevel::Info);
    assert_eq!(response_log_level(201), LogLevel::Info);
    assert_eq!(response_log_level(399), LogLevel::Info);
    assert_eq!(response_log_level(400), LogLevel::Warn);
    assert_eq!(response_log_level(404), LogLevel::Warn);
    assert_eq!(response_log_level(499), LogLevel::Warn);
    assert_eq!(response_log_level(500), LogLevel::Error);
    assert_eq!(response_log_level(503), LogLevel::Error);
}
