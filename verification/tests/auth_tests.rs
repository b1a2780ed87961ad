use axum_api::error::AppError;
use axum_api::handlers::auth_handler::{
    rate_limit_key, AuthAction, AuthEvent, AuthReply, Login, LoginStep, RateLimitKey, Refusal,
    RegisterStep, Registration,
};
use axum_api::middleware::auth::{authenticate, bearer_token};
use axum_api::models::auth::{Claims, UserRow};
use axum_api::schemas::auth::{LoginRequest, RegisterRequest};
use axum_api::services::auth_service::{
    decode_jwt, decoded_claims, generate_jwt, generate_jwt_at, hash_password, jwt_claims,
    verify_password, TOKEN_LIFETIME_SECS,
};

fn register_request(username: &str, password: &str) -> RegisterRequest {
    RegisterRequest { username: username.to_string(), password: password.to_string() }
}

fn bad_request(r: Result<(), AppError>, msg: &str) {
    match r {
        Err(AppError::BadRequest(m)) => assert_eq!(m, msg),
        other => panic!("expected a bad request, got {other:?}"),
    }
}

#[test]
fn validate_accepts_a_normal_registration() {
    assert_eq!(register_request("testuser", "secret123").validate(), Ok(()));
}

#[test]
fn validate_rejects_blank_username() {
    bad_request(register_request("", "secret123").validate(), "Username must not be empty");
    bad_request(
        register_request(" \t\n\u{3000}", "secret123").validate(),
        "Username must not be empty",
    );
}

#[test]
fn validate_counts_trimmed_username_bytes() {
    let fifty = "a".repeat(50);
    assert_eq!(register_request(&format!("  {fifty}  "), "secret123").validate(), Ok(()));
    bad_request(
        register_request(&"a".repeat(51), "secret123").validate(),
        "Username must not exceed 50 characters",
    );
    // 17 three-byte characters: 51 bytes.
    bad_request(
        register_request(&"ก".repeat(17), "secret123").validate(),
        "Username must not exceed 50 characters",
    );
}

#[test]
fn validate_checks_password_length_in_bytes() {
    bad_request(register_request("bob", "1234567").validate(), "Password must be at least 8 characters");
    assert_eq!(register_request("bob", "12345678").validate(), Ok(()));
    assert_eq!(register_request("bob", &"x".repeat(128)).validate(), Ok(()));
    bad_request(
        register_request("bob", &"x".repeat(129)).validate(),
        "Password must not exceed 128 characters",
    );
    // Four two-byte characters make eight bytes.
    assert_eq!(register_request("bob", "éééé").validate(), Ok(()));
}

#[test]
fn validate_reports_the_first_broken_rule() {
    bad_request(register_request("", "1").validate(), "Username must not be empty");
}

#[test]
fn rate_limit_keys() {
    assert_eq!(rate_limit_key(RateLimitKey::RegistrationIp, "10.0.0.1", "bob"), "reg_ip:10.0.0.1");
    assert_eq!(rate_limit_key(RateLimitKey::RegistrationUser, "10.0.0.1", "bob"), "reg_attempt:bob");
    assert_eq!(rate_limit_key(RateLimitKey::LoginIp, "10.0.0.1", "bob"), "login_ip:10.0.0.1");
}

#[test]
fn refusal_messages_and_statuses() {
    let e = Refusal::TooManyRegistrationAttempts.to_error();
    assert_eq!((e.status_code(), e.message().as_str()), (400, "Too many registration attempts"));
    let e = Refusal::RegisterAgainLater.to_error();
    assert_eq!((e.status_code(), e.message().as_str()), (400, "Please wait before registering again"));
    let e = Refusal::UsernameTaken.to_error();
    assert_eq!((e.status_code(), e.message().as_str()), (400, "Username already taken"));
    let e = Refusal::TooManyLoginAttempts.to_error();
    assert_eq!(
        (e.status_code(), e.message().as_str()),
        (400, "Too many login attempts, please try again later")
    );
    let e = Refusal::InvalidCredentials.to_error();
    assert_eq!((e.status_code(), e.message().as_str()), (401, "Invalid username or password"));
}

#[test]
fn error_statuses() {
    assert_eq!(AppError::BadRequest("x".into()).status_code(), 400);
    assert_eq!(AppError::Unauthorized("x".into()).status_code(), 401);
    assert_eq!(AppError::NotFound("x".into()).status_code(), 404);
    assert_eq!(AppError::Internal("x".into()).status_code(), 500);
}

fn is_check(a: &AuthAction, k: RateLimitKey) -> bool {
    matches!(a, AuthAction::CheckKey(x) if *x == k)
}

fn is_set(a: &AuthAction, k: RateLimitKey) -> bool {
    matches!(a, AuthAction::SetKey(x) if *x == k)
}

#[test]
fn registration_happy_path_with_redis() {
    let (mut r, a) = Registration::start(register_request("bob", "secret123"), "1.2.3.4".into(), true);
    assert!(is_check(&a, RateLimitKey::RegistrationIp));
    assert_eq!(r.key(RateLimitKey::RegistrationIp), "reg_ip:1.2.3.4");
    let a = r.step(AuthEvent::KeyChecked(Ok(false)));
    assert!(is_check(&a, RateLimitKey::RegistrationUser));
    assert_eq!(r.key(RateLimitKey::RegistrationUser), "reg_attempt:bob");
    assert!(matches!(r.step(AuthEvent::KeyChecked(Ok(false))), AuthAction::HashPassword));
    match r.step(AuthEvent::Hashed(Ok("$2b$12$hash".into()))) {
        AuthAction::CreateUser(h) => assert_eq!(h, "$2b$12$hash"),
        _ => panic!("expected CreateUser"),
    }
    assert!(is_set(&r.step(AuthEvent::Created(Ok(true))), RateLimitKey::RegistrationIp));
    assert!(is_set(&r.step(AuthEvent::KeySet), RateLimitKey::RegistrationUser));
    assert!(matches!(r.step(AuthEvent::KeySet), AuthAction::IssueToken));
    match r.step(AuthEvent::TokenIssued(Ok("tok".into()))) {
        AuthAction::Reply(AuthReply::Token(t)) => assert_eq!(t, "tok"),
        _ => panic!("expected a token"),
    }
    assert_eq!(r.step, RegisterStep::Finished);
}

#[test]
fn registration_without_redis_skips_rate_limits() {
    let (mut r, a) = Registration::start(register_request("bob", "secret123"), "1.2.3.4".into(), false);
    assert!(matches!(a, AuthAction::HashPassword));
    assert!(matches!(r.step(AuthEvent::Hashed(Ok("h".into()))), AuthAction::CreateUser(_)));
    assert!(matches!(r.step(AuthEvent::Created(Ok(true))), AuthAction::IssueToken));
}

#[test]
fn registration_refusals() {
    let (_, a) = Registration::start(register_request("", "secret123"), "ip".into(), true);
    match a {
        AuthAction::Reply(AuthReply::Failed(AppError::BadRequest(m))) => {
            assert_eq!(m, "Username must not be empty")
        }
        _ => panic!("expected a validation failure"),
    }
    let (mut r, _) = Registration::start(register_request("bob", "secret123"), "ip".into(), true);
    assert!(matches!(
        r.step(AuthEvent::KeyChecked(Ok(true))),
        AuthAction::Reply(AuthReply::Refused(Refusal::TooManyRegistrationAttempts))
    ));
    let (mut r, _) = Registration::start(register_request("bob", "secret123"), "ip".into(), true);
    r.step(AuthEvent::KeyChecked(Ok(false)));
    assert!(matches!(
        r.step(AuthEvent::KeyChecked(Ok(true))),
        AuthAction::Reply(AuthReply::Refused(Refusal::RegisterAgainLater))
    ));
    let (mut r, _) = Registration::start(register_request("bob", "secret123"), "ip".into(), false);
    r.step(AuthEvent::Hashed(Ok("h".into())));
    assert!(matches!(
        r.step(AuthEvent::Created(Ok(false))),
        AuthAction::Reply(AuthReply::Refused(Refusal::UsernameTaken))
    ));
    let (mut r, _) = Registration::start(register_request("bob", "secret123"), "ip".into(), false);
    r.step(AuthEvent::Hashed(Ok("h".into())));
    match r.step(AuthEvent::Created(Err(AppError::Internal("db down".into())))) {
        AuthAction::Reply(AuthReply::Failed(AppError::Internal(m))) => assert_eq!(m, "db down"),
        _ => panic!("expected the database error"),
    }
}

fn login_request() -> LoginRequest {
    LoginRequest { username: "testuser".into(), password: "secret123".into() }
}

#[test]
fn login_happy_path_with_redis() {
    let (mut l, a) = Login::start(login_request(), "9.9.9.9".into(), true);
    assert!(is_check(&a, RateLimitKey::LoginIp));
    assert_eq!(l.key(RateLimitKey::LoginIp), "login_ip:9.9.9.9");
    assert!(matches!(l.step(AuthEvent::KeyChecked(Ok(false))), AuthAction::FindUser));
    let user = UserRow { username: "testuser".into(), password: "stored".into() };
    match l.step(AuthEvent::Found(Ok(Some(user)))) {
        AuthAction::VerifyPassword(h) => assert_eq!(h, "stored"),
        _ => panic!("expected VerifyPassword"),
    }
    assert!(is_set(&l.step(AuthEvent::Verified(Ok(true))), RateLimitKey::LoginIp));
    assert!(matches!(l.step(AuthEvent::KeySet), AuthAction::IssueToken));
    assert!(matches!(l.step(AuthEvent::TokenIssued(Ok("t".into()))), AuthAction::Reply(AuthReply::Token(_))));
    assert_eq!(l.step, LoginStep::Finished);
}

#[test]
fn login_unknown_user_and_wrong_password_look_alike() {
    let (mut l, _) = Login::start(login_request(), "ip".into(), false);
    assert!(matches!(
        l.step(AuthEvent::Found(Ok(None))),
        AuthAction::Reply(AuthReply::Refused(Refusal::InvalidCredentials))
    ));
    let (mut l, _) = Login::start(login_request(), "ip".into(), false);
    l.step(AuthEvent::Found(Ok(Some(UserRow { username: "testuser".into(), password: "h".into() }))));
    assert!(matches!(
        l.step(AuthEvent::Verified(Ok(false))),
        AuthAction::Reply(AuthReply::Refused(Refusal::InvalidCredentials))
    ));
}

#[test]
fn login_rate_limited() {
    let (mut l, _) = Login::start(login_request(), "ip".into(), true);
    assert!(matches!(
        l.step(AuthEvent::KeyChecked(Ok(true))),
        AuthAction::Reply(AuthReply::Refused(Refusal::TooManyLoginAttempts))
    ));
}

#[test]
fn bearer_token_parsing() {
    assert_eq!(bearer_token(Some("Bearer abc.def")).unwrap(), "abc.def");
    assert_eq!(bearer_token(Some("Bearer ")).unwrap(), "");
    match bearer_token(None) {
        Err(AppError::Unauthorized(m)) => assert_eq!(m, "Missing Authorization header"),
        _ => panic!("expected 401"),
    }
    match bearer_token(Some("bearer abc")) {
        Err(AppError::Unauthorized(m)) => assert_eq!(m, "Invalid Authorization format"),
        _ => panic!("expected 401"),
    }
    assert!(bearer_token(Some("Basic abc")).is_err());
}

#[test]
fn undecodable_token_is_unauthorized() {
    match decoded_claims(None) {
        Err(AppError::Unauthorized(m)) => assert_eq!(m, "Invalid or expired token"),
        _ => panic!("expected 401"),
    }
    let c = decoded_claims(Some(Claims { sub: "a".into(), iat: 1, exp: 2 })).unwrap();
    assert_eq!((c.sub.as_str(), c.iat, c.exp), ("a", 1, 2));
}

#[test]
fn hashed_password_verifies() {
    let h = hash_password("secret123").unwrap();
    assert!(h.starts_with("$2b$12$"));
    assert_ne!(h, "secret123");
    assert_eq!(verify_password("secret123", &h), Ok(true));
    assert_eq!(verify_password("secret124", &h), Ok(false));
}

#[test]
fn malformed_hash_is_an_internal_error() {
    assert!(matches!(verify_password("secret123", "not a hash"), Err(AppError::Internal(_))));
}

#[test]
fn token_claims() {
    let c = jwt_claims("alice", 1_000);
    assert_eq!((c.sub.as_str(), c.iat, c.exp), ("alice", 1_000, 1_000 + 86_400));
    assert_eq!(TOKEN_LIFETIME_SECS, 86_400);
}

fn decode(token: &str, secret: &str) -> serde_json::Value {
    let mut validation = jsonwebtoken::Validation::default();
    validation.validate_exp = false;
    validation.required_spec_claims.clear();
    jsonwebtoken::decode::<serde_json::Value>(
        token,
        &jsonwebtoken::DecodingKey::from_secret(secret.as_bytes()),
        &validation,
    )
    .expect("token should decode")
    .claims
}

#[test]
fn issued_token_carries_the_claims() {
    let t = generate_jwt_at("alice", "s3cret", 1_700_000_000).unwrap();
    assert_eq!(t.split('.').count(), 3);
    let claims = decode(&t, "s3cret");
    assert_eq!(claims["sub"], "alice");
    assert_eq!(claims["iat"], 1_700_000_000i64);
    assert_eq!(claims["exp"], 1_700_086_400i64);
    let mut validation = jsonwebtoken::Validation::default();
    validation.validate_exp = false;
    assert!(jsonwebtoken::decode::<serde_json::Value>(
        &t,
        &jsonwebtoken::DecodingKey::from_secret(b"other"),
        &validation
    )
    .is_err());
}

#[test]
fn issued_token_keeps_claim_order() {
    let t = generate_jwt_at("alice", "s3cret", 10).unwrap();
    let payload = t.split('.').nth(1).unwrap();
    assert_eq!(payload, "eyJzdWIiOiJhbGljZSIsImlhdCI6MTAsImV4cCI6ODY0MTB9");
}

#[test]
fn current_token_is_valid_now() {
    let t = generate_jwt("bob", "k").unwrap();
    let claims = decode(&t, "k");
    let iat = claims["iat"].as_i64().unwrap();
    assert_eq!(claims["exp"].as_i64().unwrap(), iat + 86_400);
    assert!(iat > 1_600_000_000);
}

#[test]
fn clock_reads_after_the_epoch() {
    let n = axum_api::clock::now_nanos();
    let s = axum_api::clock::now_secs();
    assert!(n > 1_600_000_000_000_000_000);
    assert!(s > 1_600_000_000);
    assert!((n / 1_000_000_000) as i64 >= s - 1);
}

fn unauthorized(r: Result<Claims, AppError>, msg: &str) {
    match r {
        Err(AppError::Unauthorized(m)) => assert_eq!(m, msg),
        Err(e) => panic!("expected 401, got {e:?}"),
        Ok(c) => panic!("expected 401, got claims for {}", c.sub),
    }
}

#[test]
fn issued_token_round_trips() {
    let t = generate_jwt("alice", "s3cret").unwrap();
    let c = decode_jwt(&t, "s3cret").unwrap();
    assert_eq!(c.sub, "alice");
    assert_eq!(c.exp, c.iat + 86_400);
    let c = authenticate(Some(&format!("Bearer {t}")), "s3cret").unwrap();
    assert_eq!(c.sub, "alice");
}

#[test]
fn bad_tokens_are_refused() {
    let t = generate_jwt("alice", "s3cret").unwrap();
    unauthorized(decode_jwt(&t, "other"), "Invalid or expired token");
    unauthorized(decode_jwt("not.a.token", "s3cret"), "Invalid or expired token");
    unauthorized(decode_jwt("", "s3cret"), "Invalid or expired token");
    let expired = generate_jwt_at("alice", "s3cret", 1_000).unwrap();
    unauthorized(decode_jwt(&expired, "s3cret"), "Invalid or expired token");
}

#[test]
fn authenticate_refuses_bad_headers() {
    let t = generate_jwt("alice", "s3cret").unwrap();
    unauthorized(authenticate(None, "s3cret"), "Missing Authorization header");
    unauthorized(authenticate(Some(&format!("Token {t}")), "s3cret"), "Invalid Authorization format");
    unauthorized(authenticate(Some("Bearer x.y.z"), "s3cret"), "Invalid or expired token");
}

#[test]
fn token_refused_when_expiry_is_out_of_range() {
    let latest = 8_210_266_876_799i64;
    match generate_jwt_at("alice", "k", latest - 86_399) {
        Err(AppError::Internal(m)) => assert_eq!(m, "Clock is beyond the supported date range"),
        _ => panic!("expected 500"),
    }
    assert!(generate_jwt_at("alice", "k", latest - 86_400).is_ok());
    assert!(generate_jwt_at("alice", "k", i64::MAX).is_err());
    assert!(generate_jwt_at("alice", "k", -5).is_ok());
}

#[test]
fn instants_in_nanoseconds() {
    assert_eq!(axum_api::clock::instant_nanos(2, 5), 2_000_000_005);
    assert_eq!(axum_api::clock::instant_nanos(-1, 999_999_999), -1);
}
