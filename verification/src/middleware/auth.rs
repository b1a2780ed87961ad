//! The decisions of the JWT authentication middleware.
use vstd::prelude::*;

use crate::error::AppError;
use crate::models::auth::Claims;
use crate::services::auth_service::{decode_jwt, hs256_claims};
use crate::text::strip_prefix;

verus! {

/// The token of an `Authorization` header value, or the message it is refused with.
pub open spec fn bearer_token_spec(header: Option<&str>) -> Result<Seq<char>, Seq<char>> {
    match header {
        None => Err("Missing Authorization header"@),
        Some(h) => if "Bearer "@.is_prefix_of(h@) {
            Ok(h@.subrange("Bearer "@.len() as int, h@.len() as int))
        } else {
            Err("Invalid Authorization format"@)
        },
    }
}

/// The token of an `Authorization` header value: the text after `Bearer `.
/// A missing (or non-text) header and one without that prefix are refused with 401.
pub fn bearer_token(header: Option<&str>) -> (r: Result<&str, AppError>)
    ensures
        match bearer_token_spec(header) {
            Ok(t) => r matches Ok(s) && s@ == t,
            Err(m) => r matches Err(AppError::Unauthorized(e)) && e@ == m,
        },
{
    match header {
        None => Err(AppError::Unauthorized(String::from_str("Missing Authorization header"))),
        Some(h) => {
            proof {
                reveal_strlit("Bearer ");
            }
            match strip_prefix(h, "Bearer ") {
                Some(t) => Ok(t),
                None => Err(AppError::Unauthorized(String::from_str("Invalid Authorization format"))),
            }
        },
    }
}

/// Authenticate a request: the Bearer token of its `Authorization` header, decoded
/// and validated with `secret`.
pub fn authenticate(header: Option<&str>, secret: &str) -> (r: Result<Claims, AppError>)
    ensures
        match bearer_token_spec(header) {
            Err(m) => r matches Err(AppError::Unauthorized(e)) && e@ == m,
            Ok(t) => (r matches Ok(c) ==> hs256_claims(t, secret@) == Some((c.sub@, c.iat as int, c.exp as int)))
                && (r matches Err(e) ==> (e matches AppError::Unauthorized(m) && m@ == "Invalid or expired token"@))
                && (hs256_claims(t, secret@) is None ==> r is Err),
        },
{
    let token = bearer_token(header)?;
    decode_jwt(token, secret)
}

} // verus!
