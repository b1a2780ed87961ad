//! Passwords (bcrypt) and tokens (HS256 JWT).
use vstd::prelude::*;

use crate::clock::{now_secs, LATEST_UTC_SECS};
use crate::error::AppError;
use crate::models::auth::Claims;
use jsonwebtoken::errors::Error as JwtError;

verus! {

/// How long a token stays valid: 24 hours, in seconds.
pub const TOKEN_LIFETIME_SECS: i64 = 86_400;

#[verifier::external_type_specification]
#[verifier::external_body]
pub struct ExBcryptError(bcrypt::BcryptError);

#[verifier::external_type_specification]
#[verifier::external_body]
pub struct ExJwtError(jsonwebtoken::errors::Error);

/// What `bcrypt::verify(password, hash)` returns: `Some(matches)` for `Ok`,
/// `None` for an error (a hash that is not a well-formed bcrypt hash).
pub uninterp spec fn bcrypt_verification(password: Seq<char>, hash: Seq<char>) -> Option<bool>;

/// The HS256 JWT that `jsonwebtoken::encode` makes with the default header, the
/// claims object `{"sub", "iat", "exp"}` (in that order) and the HMAC key of the
/// secret's bytes.
pub uninterp spec fn hs256_token(sub: Seq<char>, iat: int, exp: int, secret: Seq<char>) -> Seq<char>;

/// The claims `(sub, iat, exp)` that a token carries under a secret: `Some` when the
/// token is three dot-separated parts whose header names HS256, whose signature is
/// the HMAC-SHA256 of the first two parts under the secret's bytes, and whose
/// claims object holds a string `sub` and integers `iat` and `exp`; `None` otherwise.
/// Whether the token has expired plays no part.
pub uninterp spec fn hs256_claims(token: Seq<char>, secret: Seq<char>) -> Option<(Seq<char>, int, int)>;

/// `bcrypt::hash(password, DEFAULT_COST)`. The salt is random, so which hash comes
/// back is not stated; the source shows that `bcrypt::verify` recomputes the hash
/// with the salt and cost that the returned string holds, so the password verifies
/// against it. It fails only when the operating system gives no randomness.
#[verifier::external_body]
fn bcrypt_hash(password: &str) -> (r: Result<String, bcrypt::BcryptError>)
    ensures
        r matches Ok(h) ==> bcrypt_verification(password@, h@) == Some(true),
{
    bcrypt::hash(password, bcrypt::DEFAULT_COST)
}

/// `bcrypt::verify(password, hash)`: whether the password matches the hash, or an
/// error when the hash is malformed.
#[verifier::external_body]
fn bcrypt_verify(password: &str, hash: &str) -> (r: Result<bool, bcrypt::BcryptError>)
    ensures
        r is Ok <==> bcrypt_verification(password@, hash@) is Some,
        r matches Ok(b) ==> bcrypt_verification(password@, hash@) == Some(b),
{
    bcrypt::verify(password, hash)
}

/// `jsonwebtoken::encode(&Header::default(), claims, &EncodingKey::from_secret(secret))`
/// on the claims object `{"sub": sub, "iat": iat, "exp": exp}`. The source shows that
/// it cannot fail here: the key's family (HMAC) matches the default algorithm
/// (HS256), a JSON value always serialises, and HMAC signing never fails. The token's
/// header names HS256 and its signature is the HMAC of its first two parts under
/// the secret, so it carries the claims it was made from.
#[verifier::external_body]
fn encode_hs256(sub: &str, iat: i64, exp: i64, secret: &str) -> (r: Result<String, JwtError>)
    ensures
        r is Ok,
        r matches Ok(t) ==> t@ == hs256_token(sub@, iat as int, exp as int, secret@),
        r matches Ok(t) ==> hs256_claims(t@, secret@) == Some((sub@, iat as int, exp as int)),
{
    let mut claims = serde_json::Map::new();
    claims.insert("sub".to_string(), serde_json::Value::from(sub));
    claims.insert("iat".to_string(), serde_json::Value::from(iat));
    claims.insert("exp".to_string(), serde_json::Value::from(exp));
    jsonwebtoken::encode(
        &jsonwebtoken::Header::default(),
        &serde_json::Value::Object(claims),
        &jsonwebtoken::EncodingKey::from_secret(secret.as_bytes()),
    )
}

/// `jsonwebtoken::decode` of the token with the secret's HMAC key and the default
/// validation (algorithm HS256, signature checked, an `exp` claim required and not
/// in the past beyond 60 seconds of leeway, any `aud` claim refused), its claims read
/// as a JSON object whose `sub` is a string and `iat` and `exp` are `i64`; `None` when
/// any of this fails. Whether the token is accepted depends on the clock, so only
/// the claims of an accepted token are stated: they are the token's own.
/// A claims object that repeats `sub` or `exp` is refused by the crate's own
/// validation; one that repeats `iat` is read with its last value.
#[verifier::external_body]
fn decode_hs256(token: &str, secret: &str) -> (r: Option<Claims>)
    ensures
        r matches Some(c) ==> hs256_claims(token@, secret@) == Some((c.sub@, c.iat as int, c.exp as int)),
{
    let data = jsonwebtoken::decode::<serde_json::Map<String, serde_json::Value>>(
        token,
        &jsonwebtoken::DecodingKey::from_secret(secret.as_bytes()),
        &jsonwebtoken::Validation::default(),
    ).ok()?;
    let sub = data.claims.get("sub")?.as_str()?.to_string();
    let iat = data.claims.get("iat")?.as_i64()?;
    let exp = data.claims.get("exp")?.as_i64()?;
    Some(Claims { sub, iat, exp })
}

/// Hash a password with bcrypt (default cost, random salt). The hash it returns
/// verifies the password.
pub fn hash_password(raw: &str) -> (r: Result<String, AppError>)
    ensures
        match r {
            Ok(h) => bcrypt_verification(raw@, h@) == Some(true),
            Err(e) => e is Internal,
        },
{
    match bcrypt_hash(raw) {
        Ok(h) => Ok(h),
        Err(_) => Err(AppError::Internal(String::from_str("Password hashing failed"))),
    }
}

/// Check a password against a stored bcrypt hash.
pub fn verify_password(raw: &str, hash: &str) -> (r: Result<bool, AppError>)
    ensures
        match bcrypt_verification(raw@, hash@) {
            Some(b) => r == Ok::<bool, AppError>(b),
            None => r matches Err(e) && e is Internal,
        },
{
    match bcrypt_verify(raw, hash) {
        Ok(b) => Ok(b),
        Err(_) => Err(AppError::Internal(String::from_str("Password verification failed"))),
    }
}

/// The claims of a token issued to `username` at `now`: valid for 24 hours.
pub fn jwt_claims(username: &str, now: i64) -> (c: Claims)
    requires
        now <= LATEST_UTC_SECS - TOKEN_LIFETIME_SECS,
    ensures
        c.sub@ == username@,
        c.iat == now,
        c.exp == now + TOKEN_LIFETIME_SECS,
{
    Claims { sub: username.to_owned(), iat: now, exp: now + TOKEN_LIFETIME_SECS }
}

/// The message of a token that cannot be issued because its expiry would lie
/// beyond the latest UTC date-time.
pub open spec fn clock_out_of_range_message() -> Seq<char> {
    "Clock is beyond the supported date range"@
}

/// The token issued to `username` at `now` (seconds since the epoch), signed with
/// `secret`, valid for 24 hours. When the expiry would lie beyond the latest UTC
/// date-time no token can be issued and the request fails with 500.
pub fn generate_jwt_at(username: &str, secret: &str, now: i64) -> (r: Result<String, AppError>)
    ensures
        r is Err <==> now > LATEST_UTC_SECS - TOKEN_LIFETIME_SECS,
        r matches Err(e) ==> (e matches AppError::Internal(m) && m@ == clock_out_of_range_message()),
        r matches Ok(t) ==> t@ == hs256_token(username@, now as int, now + TOKEN_LIFETIME_SECS, secret@)
            && hs256_claims(t@, secret@) == Some((username@, now as int, now + TOKEN_LIFETIME_SECS)),
{
    if now > LATEST_UTC_SECS - TOKEN_LIFETIME_SECS {
        return Err(AppError::Internal(String::from_str("Clock is beyond the supported date range")));
    }
    let claims = jwt_claims(username, now);
    match encode_hs256(claims.sub.as_str(), claims.iat, claims.exp, secret) {
        Ok(t) => Ok(t),
        Err(_) => Err(AppError::Internal(String::from_str("Token encoding failed"))),
    }
}

/// Issue a token to `username`, valid from now for 24 hours: `generate_jwt_at` at
/// the instant the clock reads.
pub fn generate_jwt(username: &str, secret: &str) -> (r: Result<String, AppError>)
    ensures
        exists|now: int|
            0 <= now <= LATEST_UTC_SECS && #[trigger] issued_at(r, username@, secret@, now),
{
    let now = now_secs();
    let r = generate_jwt_at(username, secret, now);
    assert(issued_at(r, username@, secret@, now as int));
    r
}

/// `r` is what `generate_jwt_at` returns for `username` and `secret` at `now`.
pub open spec fn issued_at(r: Result<String, AppError>, username: Seq<char>, secret: Seq<char>, now: int) -> bool {
    &&& (r is Err <==> now > LATEST_UTC_SECS - TOKEN_LIFETIME_SECS)
    &&& (r matches Err(e) ==> (e matches AppError::Internal(m) && m@ == clock_out_of_range_message()))
    &&& (r matches Ok(t) ==> t@ == hs256_token(username, now, now + TOKEN_LIFETIME_SECS, secret)
        && hs256_claims(t@, secret) == Some((username, now, now + TOKEN_LIFETIME_SECS)))
}

/// The outcome of decoding a token: its claims, or 401 when the token did not
/// decode (bad signature, malformed, or expired).
pub fn decoded_claims(decoded: Option<Claims>) -> (r: Result<Claims, AppError>)
    ensures
        match decoded {
            Some(c) => r == Ok::<Claims, AppError>(c),
            None => r matches Err(AppError::Unauthorized(m)) && m@ == "Invalid or expired token"@,
        },
{
    match decoded {
        Some(c) => Ok(c),
        None => Err(AppError::Unauthorized(String::from_str("Invalid or expired token"))),
    }
}

/// Decode and validate a token signed with `secret`. An accepted token gives back
/// the claims it carries; a token that is malformed, badly signed or expired is
/// refused with 401 "Invalid or expired token".
pub fn decode_jwt(token: &str, secret: &str) -> (r: Result<Claims, AppError>)
    ensures
        r matches Ok(c) ==> hs256_claims(token@, secret@) == Some((c.sub@, c.iat as int, c.exp as int)),
        r matches Err(e) ==> (e matches AppError::Unauthorized(m) && m@ == "Invalid or expired token"@),
        hs256_claims(token@, secret@) is None ==> r is Err,
{
    decoded_claims(decode_hs256(token, secret))
}

/// A token issued to a username, once accepted, gives back that username and the
/// instants it was issued with: what `decode_jwt` returns for a token that
/// `generate_jwt_at` (or `generate_jwt`) made are the claims it was made from.
pub proof fn law_issued_token_decodes_to_its_claims(
    token: Seq<char>,
    secret: Seq<char>,
    username: Seq<char>,
    now: int,
    c: Claims,
)
    requires
        hs256_claims(token, secret) == Some((username, now, now + TOKEN_LIFETIME_SECS)),
        hs256_claims(token, secret) == Some((c.sub@, c.iat as int, c.exp as int)),
    ensures
        c.sub@ == username,
        c.iat == now,
        c.exp == now + TOKEN_LIFETIME_SECS,
{
}

} // verus!
