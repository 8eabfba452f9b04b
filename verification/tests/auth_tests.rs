use okane::auth::{
    check_email_exists, confirm_password, generate_salt, hash_password, hash_password_with_salt,
    login, session_claims, validate_age, validate_registration, verify_password, JwtClaims,
    LoginRequest, LoginResponse,
};
use okane::auth::{decode_session, generate_jwt, session_account_number};
use okane::errors::AppError;

fn bad(m: &str) -> AppError {
    AppError::BadRequest(m.to_string())
}

// 2000-01-01 as chrono's num_days_from_ce.
const Y2000: i32 = 730120;

#[test]
fn salt_is_22_b64_characters() {
    let s = generate_salt();
    assert_eq!(s.len(), 22);
    assert_ne!(generate_salt(), generate_salt());
}

#[test]
fn hash_then_verify_accepts_the_password() {
    let h = hash_password("s3cret!").unwrap();
    assert!(h.starts_with("$argon2id$"));
    assert_eq!(verify_password("s3cret!", &h), Ok(true));
}

#[test]
fn verify_rejects_another_password() {
    let h = hash_password_with_salt("right", "c2FsdHNhbHRzYWx0c2FsdA").unwrap();
    assert_eq!(verify_password("wrong", &h), Ok(false));
}

#[test]
fn hashing_with_the_same_salt_is_deterministic() {
    let a = hash_password_with_salt("pw", "c2FsdHNhbHRzYWx0c2FsdA").unwrap();
    let b = hash_password_with_salt("pw", "c2FsdHNhbHRzYWx0c2FsdA").unwrap();
    assert_eq!(a, b);
}

#[test]
fn hashing_with_an_invalid_salt_fails() {
    assert_eq!(
        hash_password_with_salt("pw", "ab"),
        Err(AppError::InternalServerError("Failed to hash password".to_string()))
    );
}

#[test]
fn verify_reports_unparsable_hash() {
    assert_eq!(verify_password("pw", "not a hash"), Err(bad("Invalid password hash")));
}

#[test]
fn age_limit_is_eighteen_years_of_365_days() {
    assert_eq!(validate_age(None, Y2000), Ok(()));
    assert_eq!(validate_age(Some(Y2000 - 18 * 365), Y2000), Ok(()));
    assert_eq!(
        validate_age(Some(Y2000 - 18 * 365 + 1), Y2000),
        Err(bad("User must be at least 18 years old"))
    );
    assert_eq!(validate_age(Some(Y2000 + 10), Y2000), Err(bad("User must be at least 18 years old")));
}

#[test]
fn passwords_must_match() {
    assert_eq!(confirm_password("abc", "abc"), Ok(()));
    assert_eq!(confirm_password("abc", "abd"), Err(bad("Passwords do not match")));
}

#[test]
fn email_count_means_taken() {
    assert!(check_email_exists(1));
    assert!(!check_email_exists(0));
}

#[test]
fn registration_checks_in_order() {
    let old = Some(Y2000 - 30 * 365);
    let young = Some(Y2000 - 365);
    assert_eq!(validate_registration(true, young, Y2000, "a", "b"), Err(bad("Email already exists")));
    assert_eq!(
        validate_registration(false, young, Y2000, "a", "b"),
        Err(bad("User must be at least 18 years old"))
    );
    assert_eq!(validate_registration(false, old, Y2000, "a", "b"), Err(bad("Passwords do not match")));
    assert_eq!(validate_registration(false, old, Y2000, "a", "a"), Ok(()));
    assert_eq!(validate_registration(false, None, Y2000, "a", "a"), Ok(()));
}

#[test]
fn session_expires_after_a_week() {
    let c = session_claims(7, "a@b.c".to_string(), "customer".to_string(), 1_700_000_000);
    assert_eq!(
        c,
        JwtClaims {
            sub: 7,
            email: "a@b.c".to_string(),
            user_type: "customer".to_string(),
            exp: 1_700_604_800,
            account_number: None,
        }
    );
}

#[test]
fn login_with_matching_password() {
    let h = hash_password_with_salt("pw", "c2FsdHNhbHRzYWx0c2FsdA").unwrap();
    let req = LoginRequest { email: "a@b.c".to_string(), password: "pw".to_string() };
    assert_eq!(
        login(&req.password, &h, Ok("tok".to_string())),
        Ok(LoginResponse { message: "Login successful".to_string(), access_token: "tok".to_string() })
    );
}

#[test]
fn login_with_wrong_password_is_unauthorized() {
    let h = hash_password_with_salt("pw", "c2FsdHNhbHRzYWx0c2FsdA").unwrap();
    assert_eq!(
        login("nope", &h, Err(AppError::InternalServerError("Failed to generate JWT".to_string()))),
        Err(AppError::Unauthorized("Invalid email or password".to_string()))
    );
}

#[test]
fn login_reports_token_failure_after_password() {
    let h = hash_password_with_salt("pw", "c2FsdHNhbHRzYWx0c2FsdA").unwrap();
    let e = AppError::InternalServerError("Failed to generate JWT".to_string());
    assert_eq!(login("pw", &h, Err(e.clone())), Err(e));
    assert_eq!(login("pw", "garbage", Ok("t".to_string())), Err(bad("Invalid password hash")));
}

#[test]
fn older_users_pass_when_younger_ones_do() {
    let today = Y2000;
    let birth = Y2000 - 18 * 365;
    assert_eq!(validate_age(Some(birth), today), Ok(()));
    assert_eq!(validate_age(Some(birth - 1000), today), Ok(()));
    assert_eq!(validate_age(Some(birth), today + 1000), Ok(()));
}

fn now() -> i64 {
    std::time::SystemTime::now().duration_since(std::time::UNIX_EPOCH).unwrap().as_secs() as i64
}

fn invalid() -> AppError {
    AppError::Unauthorized("Invalid or expired session".to_string())
}

#[test]
fn generated_session_decodes_to_its_claims() {
    let t = now();
    let token = generate_jwt(7, "a@b.c".to_string(), "customer".to_string(), t, "secret").unwrap();
    assert_eq!(
        decode_session(&token, "secret"),
        Ok(JwtClaims {
            sub: 7,
            email: "a@b.c".to_string(),
            user_type: "customer".to_string(),
            exp: (t + 604_800) as usize,
            account_number: None,
        })
    );
}

#[test]
fn session_with_another_secret_is_refused() {
    let token = generate_jwt(7, "a@b.c".to_string(), "customer".to_string(), now(), "secret").unwrap();
    assert_eq!(decode_session(&token, "other"), Err(invalid()));
    assert_eq!(decode_session("not.a.token", "secret"), Err(invalid()));
    assert_eq!(decode_session("", "secret"), Err(invalid()));
}

#[test]
fn expired_session_is_refused() {
    let token = generate_jwt(7, "a@b.c".to_string(), "customer".to_string(), 1_000_000, "secret").unwrap();
    assert_eq!(decode_session(&token, "secret"), Err(invalid()));
}

#[test]
fn session_account_number_is_read_where_present() {
    let mut claims = serde_json::Map::new();
    claims.insert("sub".to_string(), serde_json::Value::from(3));
    claims.insert("email".to_string(), serde_json::Value::from("x@y.z"));
    claims.insert("user_type".to_string(), serde_json::Value::from("admin"));
    claims.insert("exp".to_string(), serde_json::Value::from((now() + 60) as u64));
    claims.insert("account_number".to_string(), serde_json::Value::from("0123456789"));
    let token = jsonwebtoken::encode(
        &jsonwebtoken::Header::default(),
        &serde_json::Value::Object(claims),
        &jsonwebtoken::EncodingKey::from_secret(b"secret"),
    )
    .unwrap();
    let c = decode_session(&token, "secret").unwrap();
    assert_eq!(c.account_number.as_deref(), Some("0123456789"));
    assert_eq!(session_account_number(&c), Ok("0123456789".to_string()));
    let bare = session_claims(3, "x@y.z".to_string(), "admin".to_string(), 0);
    assert_eq!(session_account_number(&bare), Err(invalid()));
}

#[test]
fn salt_uses_the_b64_alphabet() {
    let s = generate_salt();
    assert!(s.chars().all(|c| c.is_ascii_alphanumeric() || c == '+' || c == '/'));
}
