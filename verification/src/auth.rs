use vstd::prelude::*;
use vstd::utf8::encode_utf8;
use argon2::password_hash::{PasswordHash, PasswordHasher, PasswordVerifier, SaltString};
use argon2::Argon2;
use jsonwebtoken::{decode, encode, DecodingKey, EncodingKey, Header, Validation};
use serde_json::Value;
use crate::errors::{
    AppError, bad_request, internal_error, unauthorized, is_bad_request, is_internal,
    is_unauthorized,
};

verus! {

/// What a client posts to log in.
#[derive(Debug, Clone, PartialEq, Eq)]
pub struct LoginRequest {
    pub email: String,
    pub password: String,
}

/// What a successful login answers.
#[derive(Debug, Clone, PartialEq, Eq)]
pub struct LoginResponse {
    pub message: String,
    pub access_token: String,
}

/// The claims of a session token.
#[derive(Debug, Clone, PartialEq, Eq)]
pub struct JwtClaims {
    /// The user's id.
    pub sub: i64,
    pub email: String,
    /// "customer" or "admin".
    pub user_type: String,
    /// Expiry, in seconds since the Unix epoch.
    pub exp: usize,
    /// The user's account number, where the token carries one (the tokens that
    /// `generate_jwt` signs carry none).
    pub account_number: Option<String>,
}

/// How long a session token lives: one week, in seconds.
pub const SESSION_SECONDS: i64 = 604800;

/// The claims that `generate_jwt` signs for a user at time `now` (seconds since the
/// Unix epoch): the token expires one week later.
pub fn session_claims(user_id: i64, email: String, user_type: String, now: i64) -> (c: JwtClaims)
    requires
        now <= i64::MAX - SESSION_SECONDS,
    ensures
        c.sub == user_id,
        c.email == email,
        c.user_type == user_type,
        c.exp == (now + SESSION_SECONDS) as usize,
{
    JwtClaims {
        sub: user_id,
        email,
        user_type,
        exp: (now + SESSION_SECONDS) as usize,
        account_number: None,
    }
}

/// The claims of a session token as plain values: `sub`, `email`, `user_type`, `exp` and,
/// where present, `account_number`.
pub type ClaimFields = (i64, Seq<char>, Seq<char>, u64, Option<Seq<char>>);

/// The claims that `jsonwebtoken::decode` with `Validation::default()` (HS256, the key being
/// the secret's bytes) accepts in the token when the expiry check is left aside, read from
/// the JSON claims: `sub` as an i64, `email` and `user_type` as strings, `exp` as a u64, and
/// `account_number` where it is a string. `None` where the token is malformed, is not HS256,
/// its signature does not verify, it carries an audience or lacks `exp`, or `sub`, `email`,
/// `user_type` or `exp` is missing or of another kind.
pub uninterp spec fn jwt_signed_claims(token: Seq<char>, secret: Seq<char>) -> Option<ClaimFields>;

/// The token that `jsonwebtoken::encode` with `Header::default()` (HS256) signs with the
/// secret's bytes over the JSON claims `sub`, `email`, `user_type` and `exp` (`None` where
/// encoding fails).
pub uninterp spec fn jwt_token(
    sub: i64,
    email: Seq<char>,
    user_type: Seq<char>,
    exp: u64,
    secret: Seq<char>,
) -> Option<Seq<char>>;

/// The claims value carries the plain claim fields.
pub open spec fn claims_carry(c: JwtClaims, f: ClaimFields) -> bool {
    &&& c.sub == f.0
    &&& c.email@ == f.1
    &&& c.user_type@ == f.2
    &&& c.exp == f.3 as usize
    &&& match c.account_number {
        Some(a) => f.4 == Some(a@),
        None => f.4 is None,
    }
}

/// Calls `jsonwebtoken::encode` (`Header::default()`, key from the secret's bytes) on the
/// JSON object of the four claims. Claimed of it: the token is named by `jwt_token`, and
/// `jsonwebtoken::decode` with `Validation::default()` reads the same claims back from it
/// (apart from the expiry check): HS256 is the default of both, the token has no audience,
/// and `exp` is present.
#[verifier::external_body]
fn jwt_encode(sub: i64, email: &str, user_type: &str, exp: u64, secret: &str) -> (t: Option<String>)
    ensures
        match t {
            Some(s) => jwt_token(sub, email@, user_type@, exp, secret@) == Some(s@),
            None => jwt_token(sub, email@, user_type@, exp, secret@) is None,
        },
        t matches Some(s) ==> jwt_signed_claims(s@, secret@) == Some(
            (sub, email@, user_type@, exp, None::<Seq<char>>),
        ),
{
    let mut claims = serde_json::Map::new();
    claims.insert("sub".to_string(), Value::from(sub));
    claims.insert("email".to_string(), Value::from(email));
    claims.insert("user_type".to_string(), Value::from(user_type));
    claims.insert("exp".to_string(), Value::from(exp));
    let key = EncodingKey::from_secret(secret.as_bytes());
    encode(&Header::default(), &Value::Object(claims), &key).ok()
}

/// Calls `jsonwebtoken::decode` with `Validation::default()` (key from the secret's bytes)
/// and picks the claims out of the JSON. The call also rejects a token whose `exp` has
/// passed (by the clock, with a minute's leeway), so of its outcome only this is claimed: a
/// result carries the claims that `jwt_signed_claims` names, and a token that it names no
/// claims for gives no result.
#[verifier::external_body]
fn jwt_decode(token: &str, secret: &str) -> (r: Option<JwtClaims>)
    ensures
        r matches Some(c) ==> jwt_signed_claims(token@, secret@) matches Some(f) && claims_carry(c, f),
        jwt_signed_claims(token@, secret@) is None ==> r is None,
{
    let key = DecodingKey::from_secret(secret.as_bytes());
    let claims = decode::<Value>(token, &key, &Validation::default()).ok()?.claims;
    Some(JwtClaims {
        sub: claims["sub"].as_i64()?,
        email: claims["email"].as_str()?.to_string(),
        user_type: claims["user_type"].as_str()?.to_string(),
        exp: claims["exp"].as_u64()? as usize,
        account_number: claims["account_number"].as_str().map(|a| a.to_string()),
    })
}

/// The expiry claim of a session started at `now`.
pub open spec fn session_expiry(now: i64) -> u64 {
    ((now + SESSION_SECONDS) as usize) as u64
}

/// Signs a session token for a user at time `now` (seconds since the Unix epoch) with the
/// secret; the token expires one week later. A token it gives decodes, with the same
/// secret, to the user's claims and no account number.
pub fn generate_jwt(user_id: i64, email: String, user_type: String, now: i64, secret: &str) -> (r:
    Result<String, AppError>)
    requires
        now <= i64::MAX - SESSION_SECONDS,
    ensures
        match jwt_token(user_id, email@, user_type@, session_expiry(now), secret@) {
            Some(t) => r matches Ok(s) && s@ == t,
            None => is_internal(r, "Failed to generate JWT"@),
        },
        r matches Ok(s) ==> jwt_signed_claims(s@, secret@) == Some(
            (user_id, email@, user_type@, session_expiry(now), None::<Seq<char>>),
        ),
{
    let claims = session_claims(user_id, email, user_type, now);
    match jwt_encode(
        claims.sub,
        claims.email.as_str(),
        claims.user_type.as_str(),
        claims.exp as u64,
        secret,
    ) {
        Some(t) => Ok(t),
        None => Err(internal_error("Failed to generate JWT")),
    }
}

/// Reads the session token: its claims where it decodes with the secret and has not
/// expired; otherwise "Invalid or expired session".
pub fn decode_session(token: &str, secret: &str) -> (r: Result<JwtClaims, AppError>)
    ensures
        r matches Ok(c) ==> jwt_signed_claims(token@, secret@) matches Some(f) && claims_carry(c, f),
        jwt_signed_claims(token@, secret@) is None ==> r is Err,
        r is Err ==> is_unauthorized(r, "Invalid or expired session"@),
{
    match jwt_decode(token, secret) {
        Some(c) => Ok(c),
        None => Err(unauthorized("Invalid or expired session")),
    }
}

/// The account number of a decoded session; a session without one is answered as one
/// that does not decode.
pub fn session_account_number(session: &JwtClaims) -> (r: Result<String, AppError>)
    ensures
        match session.account_number {
            Some(a) => r == Ok::<String, AppError>(a),
            None => is_unauthorized(r, "Invalid or expired session"@),
        },
{
    match &session.account_number {
        Some(a) => Ok(a.clone()),
        None => Err(unauthorized("Invalid or expired session")),
    }
}

/// The character of a 6-bit value in the standard Base64 alphabet.
pub open spec fn b64_char(v: int) -> char {
    if v < 26 {
        (65 + v) as char
    } else if v < 52 {
        (97 + v - 26) as char
    } else if v < 62 {
        (48 + v - 52) as char
    } else if v == 62 {
        '+'
    } else {
        '/'
    }
}

/// Bytes in standard Base64 without padding: each group of three bytes as four
/// characters, a last group of one or two bytes as two or three.
pub open spec fn b64_unpadded(bytes: Seq<u8>) -> Seq<char>
    decreases bytes.len(),
{
    if bytes.len() == 0 {
        Seq::<char>::empty()
    } else if bytes.len() == 1 {
        seq![b64_char(bytes[0] as int / 4), b64_char((bytes[0] as int % 4) * 16)]
    } else if bytes.len() == 2 {
        seq![
            b64_char(bytes[0] as int / 4),
            b64_char((bytes[0] as int % 4) * 16 + bytes[1] as int / 16),
            b64_char((bytes[1] as int % 16) * 4),
        ]
    } else {
        seq![
            b64_char(bytes[0] as int / 4),
            b64_char((bytes[0] as int % 4) * 16 + bytes[1] as int / 16),
            b64_char((bytes[1] as int % 16) * 4 + bytes[2] as int / 64),
            b64_char(bytes[2] as int % 64),
        ] + b64_unpadded(bytes.skip(3))
    }
}

/// The salt string that `SaltString::encode_b64` makes of the given bytes: their "B64"
/// writing, which is standard Base64 without padding.
pub open spec fn b64_salt(bytes: Seq<u8>) -> Seq<char> {
    b64_unpadded(bytes)
}

/// The PHC string that `Argon2::default().hash_password` gives for a password and a B64
/// salt (`None` where it fails).
pub uninterp spec fn argon2_phc_hash(password: Seq<u8>, salt: Seq<char>) -> Option<Seq<char>>;

/// Whether `PasswordHash::new` parses the text as a PHC string.
pub uninterp spec fn phc_hash_parses(hash: Seq<char>) -> bool;

/// Whether `Argon2::default().verify_password` accepts the password for the PHC string.
pub uninterp spec fn argon2_accepts(password: Seq<u8>, hash: Seq<char>) -> bool;

/// Calls `rand::random::<u8>()`: a byte from the thread-local generator. Nothing is
/// claimed of its value.
#[verifier::external_body]
pub(crate) fn random_byte() -> u8 {
    rand::random::<u8>()
}

/// Calls `SaltString::encode_b64`. Claimed of it: the salt text is `b64_salt` of the bytes,
/// and encoding 16 bytes succeeds (22 B64 characters fit the 64-byte salt buffer).
#[verifier::external_body]
fn encode_salt_b64(bytes: &[u8]) -> (salt: Option<String>)
    ensures
        salt matches Some(s) ==> s@ == b64_salt(bytes@),
        bytes@.len() == 16 ==> salt is Some,
{
    match SaltString::encode_b64(bytes) {
        Ok(s) => Some(s.as_str().to_owned()),
        Err(_) => None,
    }
}

/// Calls `Argon2::default().hash_password` with the salt given as B64 text (parsed with
/// `SaltString::from_b64`) and renders the hash as a PHC string. Claimed of it: the result
/// is named by `argon2_phc_hash`, and, as the argon2 crate documents, the PHC string it
/// gives parses again and verifies the same password.
#[verifier::external_body]
fn argon2_hash(password: &[u8], salt: &str) -> (hash: Option<String>)
    ensures
        match hash {
            Some(h) => argon2_phc_hash(password@, salt@) == Some(h@),
            None => argon2_phc_hash(password@, salt@) is None,
        },
        hash matches Some(h) ==> phc_hash_parses(h@) && argon2_accepts(password@, h@),
{
    let salt = match SaltString::from_b64(salt) {
        Ok(s) => s,
        Err(_) => return None,
    };
    match Argon2::default().hash_password(password, &salt) {
        Ok(h) => Some(h.to_string()),
        Err(_) => None,
    }
}

/// Calls `PasswordHash::new`: whether the text parses as a PHC string.
#[verifier::external_body]
fn parse_password_hash(hash: &str) -> (parses: bool)
    ensures
        parses == phc_hash_parses(hash@),
{
    PasswordHash::new(hash).is_ok()
}

/// Calls `Argon2::default().verify_password` on the PHC string (parsed with
/// `PasswordHash::new`): whether the password matches it.
#[verifier::external_body]
fn argon2_verify(password: &[u8], hash: &str) -> (accepted: bool)
    requires
        phc_hash_parses(hash@),
    ensures
        accepted == argon2_accepts(password@, hash@),
{
    match PasswordHash::new(hash) {
        Ok(parsed) => Argon2::default().verify_password(password, &parsed).is_ok(),
        Err(_) => false,
    }
}

/// The salt text is the B64 encoding of some 16 bytes.
pub open spec fn is_generated_salt(salt: Seq<char>) -> bool {
    exists|bytes: Seq<u8>| bytes.len() == 16 && salt == #[trigger] b64_salt(bytes)
}

/// `r` is what hashing the password under the salt answers.
pub open spec fn hash_outcome(password: Seq<char>, salt: Seq<char>, r: Result<String, AppError>) -> bool {
    match argon2_phc_hash(encode_utf8(password), salt) {
        Some(h) => r matches Ok(s) && s@ == h,
        None => is_internal(r, "Failed to hash password"@),
    }
}

/// A fresh salt: 16 random bytes in B64.
pub fn generate_salt() -> (salt: String)
    ensures
        is_generated_salt(salt@),
{
    let mut bytes: Vec<u8> = Vec::new();
    while bytes.len() < 16
        invariant
            bytes@.len() <= 16,
        decreases 16 - bytes@.len(),
    {
        bytes.push(random_byte());
    }
    match encode_salt_b64(bytes.as_slice()) {
        Some(s) => s,
        None => {
            proof {
                assert(false);
            }
            String::new()
        },
    }
}

/// The hash of a password under a given salt, as the service stores it.
pub fn hash_password_with_salt(password: &str, salt: &str) -> (r: Result<String, AppError>)
    ensures
        hash_outcome(password@, salt@, r),
        r matches Ok(h) ==> password_check(password@, h@) == Some(true),
{
    match argon2_hash(password.as_bytes(), salt) {
        Some(h) => Ok(h),
        None => Err(internal_error("Failed to hash password")),
    }
}

/// Hashes a password with Argon2 under a fresh random salt. A hash it gives verifies the
/// same password.
pub fn hash_password(password: &str) -> (r: Result<String, AppError>)
    ensures
        exists|salt: Seq<char>| #[trigger] is_generated_salt(salt) && hash_outcome(password@, salt, r),
        r matches Ok(h) ==> password_check(password@, h@) == Some(true),
{
    let salt = generate_salt();
    let r = hash_password_with_salt(password, salt.as_str());
    proof {
        assert(is_generated_salt(salt@) && hash_outcome(password@, salt@, r));
    }
    r
}

/// The verdict on a password against a stored hash: `None` where the stored text is not a
/// PHC string, otherwise whether Argon2 accepts the password.
pub open spec fn password_check(password: Seq<char>, hash: Seq<char>) -> Option<bool> {
    if phc_hash_parses(hash) {
        Some(argon2_accepts(encode_utf8(password), hash))
    } else {
        None
    }
}

/// Checks a password against a stored hash: a bad request if the stored text is not a
/// PHC string, otherwise whether it matches.
pub fn verify_password(password: &str, hashed_password: &str) -> (r: Result<bool, AppError>)
    ensures
        match password_check(password@, hashed_password@) {
            None => is_bad_request(r, "Invalid password hash"@),
            Some(ok) => r == Ok::<bool, AppError>(ok),
        },
{
    if !parse_password_hash(hashed_password) {
        return Err(bad_request("Invalid password hash"));
    }
    Ok(argon2_verify(password.as_bytes(), hashed_password))
}

/// Whole years between a birth date and today, as `num_days() / 365` computes them: days
/// divided by 365, rounded toward zero. Dates are day numbers counted from the common era
/// (chrono's `num_days_from_ce`).
pub open spec fn age_in_years(birth_date: int, today: int) -> int {
    let days = today - birth_date;
    if days >= 0 {
        days / 365
    } else {
        -((-days) / 365)
    }
}

/// Users must be at least 18 (by whole years of 365 days); a registration without a birth
/// date passes.
pub fn validate_age(birth_date: Option<i32>, today: i32) -> (r: Result<(), AppError>)
    ensures
        match birth_date {
            None => r is Ok,
            Some(b) => if age_in_years(b as int, today as int) < 18 {
                is_bad_request(r, "User must be at least 18 years old"@)
            } else {
                r is Ok
            },
        },
{
    if let Some(birth) = birth_date {
        let days: i64 = today as i64 - birth as i64;
        let age: i64 = if days >= 0 {
            days / 365
        } else {
            -((-days) / 365)
        };
        if age < 18 {
            return Err(bad_request("User must be at least 18 years old"));
        }
    }
    Ok(())
}

/// Being old enough is the same as having lived at least 18 * 365 days.
pub proof fn law_age_threshold(birth_date: int, today: int)
    ensures
        (age_in_years(birth_date, today) < 18) <==> (today - birth_date < 18 * 365),
{
}

/// Whoever is old enough stays so: an earlier birth date, or a later day, passes too.
pub proof fn law_age_monotonic(b1: int, b2: int, t1: int, t2: int)
    requires
        b1 <= b2,
        t2 <= t1,
        age_in_years(b2, t2) >= 18,
    ensures
        age_in_years(b1, t1) >= 18,
{
    law_age_threshold(b1, t1);
    law_age_threshold(b2, t2);
}

/// The two passwords of a registration must be equal.
pub fn confirm_password(password: &str, password_confirm: &str) -> (r: Result<(), AppError>)
    ensures
        password@ == password_confirm@ ==> r is Ok,
        password@ != password_confirm@ ==> is_bad_request(r, "Passwords do not match"@),
{
    if password.to_owned() != password_confirm.to_owned() {
        return Err(bad_request("Passwords do not match"));
    }
    Ok(())
}

/// Whether a count of users with an email means the email is taken.
pub fn check_email_exists(count: i64) -> (taken: bool)
    ensures
        taken == (count > 0),
{
    count > 0
}

/// The checks a registration passes before its password is hashed, in the service's
/// order: the email must be free, the user old enough, and the passwords equal.
pub fn validate_registration(
    email_taken: bool,
    birth_date: Option<i32>,
    today: i32,
    password: &str,
    password_confirm: &str,
) -> (r: Result<(), AppError>)
    ensures
        email_taken ==> is_bad_request(r, "Email already exists"@),
        !email_taken && (birth_date matches Some(b) && age_in_years(b as int, today as int) < 18)
            ==> is_bad_request(r, "User must be at least 18 years old"@),
        !email_taken && !(birth_date matches Some(b) && age_in_years(b as int, today as int)
            < 18) && password@ != password_confirm@ ==> is_bad_request(
            r,
            "Passwords do not match"@,
        ),
        !email_taken && !(birth_date matches Some(b) && age_in_years(b as int, today as int)
            < 18) && password@ == password_confirm@ ==> r is Ok,
{
    if email_taken {
        return Err(bad_request("Email already exists"));
    }
    validate_age(birth_date, today)?;
    confirm_password(password, password_confirm)
}

/// Logs a user in once the account's stored hash is known: the password must match, and
/// then the freshly signed session token is answered. A token that could not be signed
/// is reported only for a matching password.
pub fn login(password: &str, stored_hash: &str, access_token: Result<String, AppError>) -> (r:
    Result<LoginResponse, AppError>)
    ensures
        match password_check(password@, stored_hash@) {
            None => is_bad_request(r, "Invalid password hash"@),
            Some(false) => is_unauthorized(r, "Invalid email or password"@),
            Some(true) => match access_token {
                Err(e) => r == Err::<LoginResponse, AppError>(e),
                Ok(t) => r matches Ok(resp) && resp.message@ == "Login successful"@
                    && resp.access_token == t,
            },
        },
{
    let is_valid = verify_password(password, stored_hash)?;
    if !is_valid {
        return Err(unauthorized("Invalid email or password"));
    }
    let token = access_token?;
    Ok(LoginResponse { message: "Login successful".to_owned(), access_token: token })
}

} // verus!
