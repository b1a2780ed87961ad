use vstd::prelude::*;

verus! {

/// JWT claims, embedded in every token.
#[derive(Debug)]
pub struct Claims {
    /// The username.
    pub sub: String,
    /// Issued at (seconds since the Unix epoch).
    pub iat: i64,
    /// Expiration (seconds since the Unix epoch).
    pub exp: i64,
}

/// A row of the `certificate` table.
#[derive(Debug)]
pub struct UserRow {
    pub username: String,
    /// The bcrypt hash of the user's password.
    pub password: String,
}

} // verus!
