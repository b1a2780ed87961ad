use vstd::prelude::*;

use crate::error::AppError;
use crate::text::{is_white_space, law_trim_removes_exactly_outer_white_space, trim, trim_str};

verus! {

/// POST /auth/login request body.
#[derive(Debug)]
pub struct LoginRequest {
    pub username: String,
    pub password: String,
}

/// POST /auth/register request body.
#[derive(Debug)]
pub struct RegisterRequest {
    pub username: String,
    pub password: String,
}

/// Length in bytes of the UTF-8 encoding of `s` (what `str::len` counts).
pub open spec fn byte_len(s: Seq<char>) -> nat {
    vstd::utf8::encode_utf8(s).len()
}

/// The first rule that a registration breaks, as the message it is refused with;
/// `None` when it breaks none.
pub open spec fn registration_problem(username: Seq<char>, password: Seq<char>) -> Option<Seq<char>> {
    let name = trim(username);
    if name.len() == 0 {
        Some("Username must not be empty"@)
    } else if byte_len(name) > 50 {
        Some("Username must not exceed 50 characters"@)
    } else if byte_len(password) < 8 {
        Some("Password must be at least 8 characters"@)
    } else if byte_len(password) > 128 {
        Some("Password must not exceed 128 characters"@)
    } else {
        None
    }
}

/// The registration rules, stated on the request itself: the username without its
/// outer white space holds at least one character and at most 50 bytes, and the
/// password holds 8 to 128 bytes.
pub open spec fn registration_acceptable(username: Seq<char>, password: Seq<char>) -> bool {
    &&& trim(username).len() > 0
    &&& byte_len(trim(username)) <= 50
    &&& 8 <= byte_len(password) <= 128
}

/// What a registration is refused for: it is accepted exactly when it keeps the
/// rules; it is refused as empty exactly when the username is all white space (any
/// username with a non-white-space character passes that rule, however short);
/// as too long exactly when the trimmed username is non-empty and over 50 bytes;
/// and for its password only when the username passes, exactly when the password
/// is under 8 or over 128 bytes.
pub proof fn law_registration_rules(username: Seq<char>, password: Seq<char>)
    ensures
        registration_problem(username, password) is None <==> registration_acceptable(username, password),
        registration_problem(username, password) == Some("Username must not be empty"@)
            <==> trim(username).len() == 0,
        (exists|k: int| 0 <= k < username.len() && !is_white_space(#[trigger] username[k]))
            <==> trim(username).len() > 0,
        registration_problem(username, password) == Some("Username must not exceed 50 characters"@)
            <==> trim(username).len() > 0 && byte_len(trim(username)) > 50,
        registration_problem(username, password) == Some("Password must be at least 8 characters"@)
            <==> trim(username).len() > 0 && byte_len(trim(username)) <= 50 && byte_len(password) < 8,
        registration_problem(username, password) == Some("Password must not exceed 128 characters"@)
            <==> trim(username).len() > 0 && byte_len(trim(username)) <= 50 && byte_len(password) > 128,
{
    reveal_strlit("Username must not be empty");
    reveal_strlit("Username must not exceed 50 characters");
    reveal_strlit("Password must be at least 8 characters");
    reveal_strlit("Password must not exceed 128 characters");
    assert("Username must not be empty"@.len() == 26);
    assert("Username must not exceed 50 characters"@.len() == 38);
    assert("Password must be at least 8 characters"@.len() == 38);
    assert("Password must not exceed 128 characters"@.len() == 39);
    assert("Username must not exceed 50 characters"@[0] != "Password must be at least 8 characters"@[0]);
    let b = law_trim_removes_exactly_outer_white_space(username);
    let t = trim(username);
    if exists|k: int| 0 <= k < username.len() && !is_white_space(#[trigger] username[k]) {
        let k = choose|k: int| 0 <= k < username.len() && !is_white_space(#[trigger] username[k]);
        assert(b.0 <= k < b.1);
        assert(t[k - b.0] == username[k]);
    }
    if t.len() > 0 {
        assert(t[0] == username[b.0]);
    }
}

impl RegisterRequest {
    /// Validate registration input: the trimmed username must be 1 to 50 bytes
    /// long and the password 8 to 128 bytes long.
    pub fn validate(&self) -> (r: Result<(), AppError>)
        ensures
            match registration_problem(self.username@, self.password@) {
                None => r is Ok,
                Some(msg) => r matches Err(AppError::BadRequest(m)) && m@ == msg,
            },
            r is Ok <==> registration_acceptable(self.username@, self.password@),
            (r matches Err(AppError::BadRequest(m)) && m@ == "Username must not be empty"@) <==> trim(
                self.username@,
            ).len() == 0,
    {
        proof {
            law_registration_rules(self.username@, self.password@);
        }
        let username = trim_str(self.username.as_str());
        if username.is_empty() {
            return Err(AppError::BadRequest(String::from_str("Username must not be empty")));
        }
        if username.as_bytes().len() > 50 {
            return Err(
                AppError::BadRequest(String::from_str("Username must not exceed 50 characters")),
            );
        }
        if self.password.as_str().as_bytes().len() < 8 {
            return Err(
                AppError::BadRequest(String::from_str("Password must be at least 8 characters")),
            );
        }
        if self.password.as_str().as_bytes().len() > 128 {
            return Err(
                AppError::BadRequest(String::from_str("Password must not exceed 128 characters")),
            );
        }
        Ok(())
    }
}

/// Auth response: returned on successful login or register.
#[derive(Debug)]
pub struct AuthResponse {
    pub token: String,
}

} // verus!
