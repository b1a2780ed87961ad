//! Decisions of POST /auth/register and POST /auth/login. The runner starts a flow
//! with the request, performs each action it answers with (Redis, bcrypt, the
//! database, token issuing) and feeds the result back, until the flow replies.
use vstd::prelude::*;

use crate::error::AppError;
use crate::models::auth::UserRow;
use crate::schemas::auth::{registration_acceptable, registration_problem, LoginRequest, RegisterRequest};

verus! {

/// The rate-limit keys (each set for 60 seconds).
#[derive(Clone, Copy, Debug, PartialEq, Eq)]
pub enum RateLimitKey {
    /// `reg_ip:<client ip>`: a registration came from this address.
    RegistrationIp,
    /// `reg_attempt:<username>`: this username was registered.
    RegistrationUser,
    /// `login_ip:<client ip>`: a login succeeded from this address.
    LoginIp,
}

/// Refusals with a fixed message.
#[derive(Clone, Copy, Debug, PartialEq, Eq)]
pub enum Refusal {
    TooManyRegistrationAttempts,
    RegisterAgainLater,
    UsernameTaken,
    TooManyLoginAttempts,
    InvalidCredentials,
}

/// The message of a refusal.
pub open spec fn refusal_message(r: Refusal) -> Seq<char> {
    match r {
        Refusal::TooManyRegistrationAttempts => "Too many registration attempts"@,
        Refusal::RegisterAgainLater => "Please wait before registering again"@,
        Refusal::UsernameTaken => "Username already taken"@,
        Refusal::TooManyLoginAttempts => "Too many login attempts, please try again later"@,
        Refusal::InvalidCredentials => "Invalid username or password"@,
    }
}

/// The error a refusal is answered with: 401 for bad credentials, 400 otherwise.
pub open spec fn refusal_error_ok(r: Refusal, e: AppError) -> bool {
    match r {
        Refusal::InvalidCredentials => e matches AppError::Unauthorized(m) && m@ == refusal_message(r),
        _ => e matches AppError::BadRequest(m) && m@ == refusal_message(r),
    }
}

impl Refusal {
    /// The error this refusal is answered with.
    pub fn to_error(self) -> (e: AppError)
        ensures
            refusal_error_ok(self, e),
    {
        match self {
            Refusal::TooManyRegistrationAttempts => AppError::BadRequest(
                String::from_str("Too many registration attempts"),
            ),
            Refusal::RegisterAgainLater => AppError::BadRequest(
                String::from_str("Please wait before registering again"),
            ),
            Refusal::UsernameTaken => AppError::BadRequest(String::from_str("Username already taken")),
            Refusal::TooManyLoginAttempts => AppError::BadRequest(
                String::from_str("Too many login attempts, please try again later"),
            ),
            Refusal::InvalidCredentials => AppError::Unauthorized(
                String::from_str("Invalid username or password"),
            ),
        }
    }
}

/// How a flow answers the client.
pub enum AuthReply {
    /// 200 with this token.
    Token(String),
    /// Refused with a fixed message.
    Refused(Refusal),
    /// An error from validation or from the outside work.
    Failed(AppError),
}

/// The outside work that a flow asks for next.
pub enum AuthAction {
    /// Nothing: the event was not one the flow waits for.
    Wait,
    /// Ask Redis whether the key exists.
    CheckKey(RateLimitKey),
    /// Hash the request's password with bcrypt.
    HashPassword,
    /// Insert the user with this password hash; report whether a row was inserted.
    CreateUser(String),
    /// Look the request's username up.
    FindUser,
    /// Check the request's password against this stored hash.
    VerifyPassword(String),
    /// Set the key in Redis for 60 seconds (a failure is only logged).
    SetKey(RateLimitKey),
    /// Issue a token for the request's username.
    IssueToken,
    /// Answer the client; the flow is over.
    Reply(AuthReply),
}

/// The results that the runner feeds back.
pub enum AuthEvent {
    KeyChecked(Result<bool, AppError>),
    Hashed(Result<String, AppError>),
    Created(Result<bool, AppError>),
    Found(Result<Option<UserRow>, AppError>),
    Verified(Result<bool, AppError>),
    KeySet,
    TokenIssued(Result<String, AppError>),
}

/// Where a registration is.
#[derive(Clone, Copy, Debug, PartialEq, Eq)]
pub enum RegisterStep {
    CheckingIp,
    CheckingUsername,
    Hashing,
    Creating,
    MarkingIp,
    MarkingUsername,
    IssuingToken,
    Finished,
}

/// A registration in progress; `rate_limited` tells whether Redis is available.
pub struct Registration {
    pub request: RegisterRequest,
    pub client_ip: String,
    pub rate_limited: bool,
    pub step: RegisterStep,
}

/// The reply for a token result.
pub open spec fn token_reply(token: Result<String, AppError>) -> AuthReply {
    match token {
        Ok(t) => AuthReply::Token(t),
        Err(e) => AuthReply::Failed(e),
    }
}

/// A registration's transition: next state and action for an event.
pub open spec fn next_registration(m: Registration, e: AuthEvent) -> (Registration, AuthAction) {
    let finish = |reply: AuthReply|
        (Registration { step: RegisterStep::Finished, ..m }, AuthAction::Reply(reply));
    match (m.step, e) {
        (RegisterStep::CheckingIp, AuthEvent::KeyChecked(r)) => match r {
            Ok(false) => (
                Registration { step: RegisterStep::CheckingUsername, ..m },
                AuthAction::CheckKey(RateLimitKey::RegistrationUser),
            ),
            Ok(true) => finish(AuthReply::Refused(Refusal::TooManyRegistrationAttempts)),
            Err(err) => finish(AuthReply::Failed(err)),
        },
        (RegisterStep::CheckingUsername, AuthEvent::KeyChecked(r)) => match r {
            Ok(false) => (Registration { step: RegisterStep::Hashing, ..m }, AuthAction::HashPassword),
            Ok(true) => finish(AuthReply::Refused(Refusal::RegisterAgainLater)),
            Err(err) => finish(AuthReply::Failed(err)),
        },
        (RegisterStep::Hashing, AuthEvent::Hashed(r)) => match r {
            Ok(h) => (Registration { step: RegisterStep::Creating, ..m }, AuthAction::CreateUser(h)),
            Err(err) => finish(AuthReply::Failed(err)),
        },
        (RegisterStep::Creating, AuthEvent::Created(r)) => match r {
            Ok(true) => if m.rate_limited {
                (
                    Registration { step: RegisterStep::MarkingIp, ..m },
                    AuthAction::SetKey(RateLimitKey::RegistrationIp),
                )
            } else {
                (Registration { step: RegisterStep::IssuingToken, ..m }, AuthAction::IssueToken)
            },
            Ok(false) => finish(AuthReply::Refused(Refusal::UsernameTaken)),
            Err(err) => finish(AuthReply::Failed(err)),
        },
        (RegisterStep::MarkingIp, AuthEvent::KeySet) => (
            Registration { step: RegisterStep::MarkingUsername, ..m },
            AuthAction::SetKey(RateLimitKey::RegistrationUser),
        ),
        (RegisterStep::MarkingUsername, AuthEvent::KeySet) => (
            Registration { step: RegisterStep::IssuingToken, ..m },
            AuthAction::IssueToken,
        ),
        (RegisterStep::IssuingToken, AuthEvent::TokenIssued(r)) => finish(token_reply(r)),
        _ => (m, AuthAction::Wait),
    }
}

impl Registration {
    /// Start a registration: validate the request, then check the rate limits
    /// (when Redis is available) or go straight to hashing the password.
    pub fn start(request: RegisterRequest, client_ip: String, rate_limited: bool) -> (r: (
        Registration,
        AuthAction,
    ))
        ensures
            r.0.request == request,
            r.0.client_ip == client_ip,
            r.0.rate_limited == rate_limited,
            registration_acceptable(request.username@, request.password@) <==> !(r.1 is Reply),
            match registration_problem(request.username@, request.password@) {
                Some(msg) => r.0.step == RegisterStep::Finished && (r.1 matches AuthAction::Reply(
                    AuthReply::Failed(AppError::BadRequest(m)),
                ) && m@ == msg),
                None => if rate_limited {
                    r.0.step == RegisterStep::CheckingIp && r.1 == AuthAction::CheckKey(
                        RateLimitKey::RegistrationIp,
                    )
                } else {
                    r.0.step == RegisterStep::Hashing && r.1 == AuthAction::HashPassword
                },
            },
    {
        match request.validate() {
            Err(e) => (
                Registration { request, client_ip, rate_limited, step: RegisterStep::Finished },
                AuthAction::Reply(AuthReply::Failed(e)),
            ),
            Ok(()) => if rate_limited {
                (
                    Registration { request, client_ip, rate_limited, step: RegisterStep::CheckingIp },
                    AuthAction::CheckKey(RateLimitKey::RegistrationIp),
                )
            } else {
                (
                    Registration { request, client_ip, rate_limited, step: RegisterStep::Hashing },
                    AuthAction::HashPassword,
                )
            },
        }
    }

    /// Take a result; return the next action.
    pub fn step(&mut self, e: AuthEvent) -> (a: AuthAction)
        ensures
            (*final(self), a) == next_registration(*old(self), e),
    {
        match (self.step, e) {
            (RegisterStep::CheckingIp, AuthEvent::KeyChecked(r)) => match r {
                Ok(false) => {
                    self.step = RegisterStep::CheckingUsername;
                    AuthAction::CheckKey(RateLimitKey::RegistrationUser)
                },
                Ok(true) => {
                    self.step = RegisterStep::Finished;
                    AuthAction::Reply(AuthReply::Refused(Refusal::TooManyRegistrationAttempts))
                },
                Err(err) => {
                    self.step = RegisterStep::Finished;
                    AuthAction::Reply(AuthReply::Failed(err))
                },
            },
            (RegisterStep::CheckingUsername, AuthEvent::KeyChecked(r)) => match r {
                Ok(false) => {
                    self.step = RegisterStep::Hashing;
                    AuthAction::HashPassword
                },
                Ok(true) => {
                    self.step = RegisterStep::Finished;
                    AuthAction::Reply(AuthReply::Refused(Refusal::RegisterAgainLater))
                },
                Err(err) => {
                    self.step = RegisterStep::Finished;
                    AuthAction::Reply(AuthReply::Failed(err))
                },
            },
            (RegisterStep::Hashing, AuthEvent::Hashed(r)) => match r {
                Ok(h) => {
                    self.step = RegisterStep::Creating;
                    AuthAction::CreateUser(h)
                },
                Err(err) => {
                    self.step = RegisterStep::Finished;
                    AuthAction::Reply(AuthReply::Failed(err))
                },
            },
            (RegisterStep::Creating, AuthEvent::Created(r)) => match r {
                Ok(true) => if self.rate_limited {
                    self.step = RegisterStep::MarkingIp;
                    AuthAction::SetKey(RateLimitKey::RegistrationIp)
                } else {
                    self.step = RegisterStep::IssuingToken;
                    AuthAction::IssueToken
                },
                Ok(false) => {
                    self.step = RegisterStep::Finished;
                    AuthAction::Reply(AuthReply::Refused(Refusal::UsernameTaken))
                },
                Err(err) => {
                    self.step = RegisterStep::Finished;
                    AuthAction::Reply(AuthReply::Failed(err))
                },
            },
            (RegisterStep::MarkingIp, AuthEvent::KeySet) => {
                self.step = RegisterStep::MarkingUsername;
                AuthAction::SetKey(RateLimitKey::RegistrationUser)
            },
            (RegisterStep::MarkingUsername, AuthEvent::KeySet) => {
                self.step = RegisterStep::IssuingToken;
                AuthAction::IssueToken
            },
            (RegisterStep::IssuingToken, AuthEvent::TokenIssued(r)) => {
                self.step = RegisterStep::Finished;
                match r {
                    Ok(t) => AuthAction::Reply(AuthReply::Token(t)),
                    Err(err) => AuthAction::Reply(AuthReply::Failed(err)),
                }
            },
            _ => AuthAction::Wait,
        }
    }
}


/// The Redis key of a rate limit.
pub open spec fn key_text(k: RateLimitKey, client_ip: Seq<char>, username: Seq<char>) -> Seq<char> {
    match k {
        RateLimitKey::RegistrationIp => "reg_ip:"@ + client_ip,
        RateLimitKey::RegistrationUser => "reg_attempt:"@ + username,
        RateLimitKey::LoginIp => "login_ip:"@ + client_ip,
    }
}

/// The Redis key of a rate limit for a client address and a username.
pub fn rate_limit_key(k: RateLimitKey, client_ip: &str, username: &str) -> (key: String)
    ensures
        key@ == key_text(k, client_ip@, username@),
{
    match k {
        RateLimitKey::RegistrationIp => String::from_str("reg_ip:").concat(client_ip),
        RateLimitKey::RegistrationUser => String::from_str("reg_attempt:").concat(username),
        RateLimitKey::LoginIp => String::from_str("login_ip:").concat(client_ip),
    }
}

impl Registration {
    /// The Redis key of a rate limit of this registration.
    pub fn key(&self, k: RateLimitKey) -> (key: String)
        ensures
            key@ == key_text(k, self.client_ip@, self.request.username@),
    {
        rate_limit_key(k, self.client_ip.as_str(), self.request.username.as_str())
    }
}

/// Where a login is.
#[derive(Clone, Copy, Debug, PartialEq, Eq)]
pub enum LoginStep {
    CheckingIp,
    Finding,
    Verifying,
    MarkingIp,
    IssuingToken,
    Finished,
}

/// A login in progress; `rate_limited` tells whether Redis is available.
pub struct Login {
    pub request: LoginRequest,
    pub client_ip: String,
    pub rate_limited: bool,
    pub step: LoginStep,
}

/// A login's transition: next state and action for an event.
pub open spec fn next_login(m: Login, e: AuthEvent) -> (Login, AuthAction) {
    let finish = |reply: AuthReply| (Login { step: LoginStep::Finished, ..m }, AuthAction::Reply(reply));
    match (m.step, e) {
        (LoginStep::CheckingIp, AuthEvent::KeyChecked(r)) => match r {
            Ok(false) => (Login { step: LoginStep::Finding, ..m }, AuthAction::FindUser),
            Ok(true) => finish(AuthReply::Refused(Refusal::TooManyLoginAttempts)),
            Err(err) => finish(AuthReply::Failed(err)),
        },
        (LoginStep::Finding, AuthEvent::Found(r)) => match r {
            Ok(Some(user)) => (
                Login { step: LoginStep::Verifying, ..m },
                AuthAction::VerifyPassword(user.password),
            ),
            Ok(None) => finish(AuthReply::Refused(Refusal::InvalidCredentials)),
            Err(err) => finish(AuthReply::Failed(err)),
        },
        (LoginStep::Verifying, AuthEvent::Verified(r)) => match r {
            Ok(true) => if m.rate_limited {
                (Login { step: LoginStep::MarkingIp, ..m }, AuthAction::SetKey(RateLimitKey::LoginIp))
            } else {
                (Login { step: LoginStep::IssuingToken, ..m }, AuthAction::IssueToken)
            },
            Ok(false) => finish(AuthReply::Refused(Refusal::InvalidCredentials)),
            Err(err) => finish(AuthReply::Failed(err)),
        },
        (LoginStep::MarkingIp, AuthEvent::KeySet) => (
            Login { step: LoginStep::IssuingToken, ..m },
            AuthAction::IssueToken,
        ),
        (LoginStep::IssuingToken, AuthEvent::TokenIssued(r)) => finish(token_reply(r)),
        _ => (m, AuthAction::Wait),
    }
}

impl Login {
    /// Start a login: check the address's rate limit (when Redis is available) or
    /// go straight to looking the user up.
    pub fn start(request: LoginRequest, client_ip: String, rate_limited: bool) -> (r: (Login, AuthAction))
        ensures
            r.0.request == request,
            r.0.client_ip == client_ip,
            r.0.rate_limited == rate_limited,
            if rate_limited {
                r.0.step == LoginStep::CheckingIp && r.1 == AuthAction::CheckKey(RateLimitKey::LoginIp)
            } else {
                r.0.step == LoginStep::Finding && r.1 == AuthAction::FindUser
            },
    {
        if rate_limited {
            (
                Login { request, client_ip, rate_limited, step: LoginStep::CheckingIp },
                AuthAction::CheckKey(RateLimitKey::LoginIp),
            )
        } else {
            (Login { request, client_ip, rate_limited, step: LoginStep::Finding }, AuthAction::FindUser)
        }
    }

    /// Take a result; return the next action.
    pub fn step(&mut self, e: AuthEvent) -> (a: AuthAction)
        ensures
            (*final(self), a) == next_login(*old(self), e),
    {
        match (self.step, e) {
            (LoginStep::CheckingIp, AuthEvent::KeyChecked(r)) => match r {
                Ok(false) => {
                    self.step = LoginStep::Finding;
                    AuthAction::FindUser
                },
                Ok(true) => {
                    self.step = LoginStep::Finished;
                    AuthAction::Reply(AuthReply::Refused(Refusal::TooManyLoginAttempts))
                },
                Err(err) => {
                    self.step = LoginStep::Finished;
                    AuthAction::Reply(AuthReply::Failed(err))
                },
            },
            (LoginStep::Finding, AuthEvent::Found(r)) => match r {
                Ok(Some(user)) => {
                    self.step = LoginStep::Verifying;
                    AuthAction::VerifyPassword(user.password)
                },
                Ok(None) => {
                    self.step = LoginStep::Finished;
                    AuthAction::Reply(AuthReply::Refused(Refusal::InvalidCredentials))
                },
                Err(err) => {
                    self.step = LoginStep::Finished;
                    AuthAction::Reply(AuthReply::Failed(err))
                },
            },
            (LoginStep::Verifying, AuthEvent::Verified(r)) => match r {
                Ok(true) => if self.rate_limited {
                    self.step = LoginStep::MarkingIp;
                    AuthAction::SetKey(RateLimitKey::LoginIp)
                } else {
                    self.step = LoginStep::IssuingToken;
                    AuthAction::IssueToken
                },
                Ok(false) => {
                    self.step = LoginStep::Finished;
                    AuthAction::Reply(AuthReply::Refused(Refusal::InvalidCredentials))
                },
                Err(err) => {
                    self.step = LoginStep::Finished;
                    AuthAction::Reply(AuthReply::Failed(err))
                },
            },
            (LoginStep::MarkingIp, AuthEvent::KeySet) => {
                self.step = LoginStep::IssuingToken;
                AuthAction::IssueToken
            },
            (LoginStep::IssuingToken, AuthEvent::TokenIssued(r)) => {
                self.step = LoginStep::Finished;
                match r {
                    Ok(t) => AuthAction::Reply(AuthReply::Token(t)),
                    Err(err) => AuthAction::Reply(AuthReply::Failed(err)),
                }
            },
            _ => AuthAction::Wait,
        }
    }

    /// The Redis key of a rate limit of this login.
    pub fn key(&self, k: RateLimitKey) -> (key: String)
        ensures
            key@ == key_text(k, self.client_ip@, self.request.username@),
    {
        rate_limit_key(k, self.client_ip.as_str(), self.request.username.as_str())
    }
}


/// The event with which the runner answers a registration's action, given what the
/// outside work returns: whether the address key exists (`ip`), whether the username
/// key exists (`user`), the password hash, whether the insert added a row, the token.
pub open spec fn answer_registration(
    a: AuthAction,
    ip: Result<bool, AppError>,
    user: Result<bool, AppError>,
    hashed: Result<String, AppError>,
    created: Result<bool, AppError>,
    token: Result<String, AppError>,
) -> AuthEvent {
    match a {
        AuthAction::CheckKey(RateLimitKey::RegistrationIp) => AuthEvent::KeyChecked(ip),
        AuthAction::CheckKey(_) => AuthEvent::KeyChecked(user),
        AuthAction::HashPassword => AuthEvent::Hashed(hashed),
        AuthAction::CreateUser(_) => AuthEvent::Created(created),
        AuthAction::IssueToken => AuthEvent::TokenIssued(token),
        _ => AuthEvent::KeySet,
    }
}

/// Run a registration from `m` on event `e`, answering each action as
/// `answer_registration` says, until it replies (at most `fuel` steps).
pub open spec fn drive_registration(
    m: Registration,
    e: AuthEvent,
    ip: Result<bool, AppError>,
    user: Result<bool, AppError>,
    hashed: Result<String, AppError>,
    created: Result<bool, AppError>,
    token: Result<String, AppError>,
    fuel: nat,
) -> (Registration, Seq<AuthAction>)
    decreases fuel,
{
    if fuel == 0 {
        (m, seq![])
    } else {
        let (m2, a) = next_registration(m, e);
        if a is Reply || a is Wait {
            (m2, seq![a])
        } else {
            let (m3, rest) = drive_registration(
                m2,
                answer_registration(a, ip, user, hashed, created, token),
                ip,
                user,
                hashed,
                created,
                token,
                (fuel - 1) as nat,
            );
            (m3, seq![a] + rest)
        }
    }
}

/// The registration protocol for a valid request, as the actions asked for in
/// order: check the address key, then the username key (when Redis is available;
/// an existing key refuses), hash the password, insert the user (no row inserted
/// means the username is taken), set both keys, issue the token. Every failure of
/// the outside work is the reply.
pub open spec fn registration_protocol(
    rate_limited: bool,
    ip: Result<bool, AppError>,
    user: Result<bool, AppError>,
    hashed: Result<String, AppError>,
    created: Result<bool, AppError>,
    token: Result<String, AppError>,
) -> Seq<AuthAction> {
    let from_hashing = match hashed {
        Err(e) => seq![AuthAction::HashPassword, AuthAction::Reply(AuthReply::Failed(e))],
        Ok(h) => seq![AuthAction::HashPassword, AuthAction::CreateUser(h)] + match created {
            Err(e) => seq![AuthAction::Reply(AuthReply::Failed(e))],
            Ok(false) => seq![AuthAction::Reply(AuthReply::Refused(Refusal::UsernameTaken))],
            Ok(true) => (if rate_limited {
                seq![
                    AuthAction::SetKey(RateLimitKey::RegistrationIp),
                    AuthAction::SetKey(RateLimitKey::RegistrationUser),
                ]
            } else {
                seq![]
            }) + seq![AuthAction::IssueToken, AuthAction::Reply(token_reply(token))],
        },
    };
    if !rate_limited {
        from_hashing
    } else {
        seq![AuthAction::CheckKey(RateLimitKey::RegistrationIp)] + match ip {
            Err(e) => seq![AuthAction::Reply(AuthReply::Failed(e))],
            Ok(true) => seq![AuthAction::Reply(AuthReply::Refused(Refusal::TooManyRegistrationAttempts))],
            Ok(false) => seq![AuthAction::CheckKey(RateLimitKey::RegistrationUser)] + match user {
                Err(e) => seq![AuthAction::Reply(AuthReply::Failed(e))],
                Ok(true) => seq![AuthAction::Reply(AuthReply::Refused(Refusal::RegisterAgainLater))],
                Ok(false) => from_hashing,
            },
        }
    }
}

/// The rate limits let the request through: Redis is unavailable, or neither key exists.
pub open spec fn limits_clear(rate_limited: bool, checks: Seq<Result<bool, AppError>>) -> bool {
    !rate_limited || forall|i: int| 0 <= i < checks.len() ==> checks[i] == Ok::<bool, AppError>(false)
}

/// A started registration of a valid request follows the registration protocol
/// and ends with a reply. In particular: a user is created only when no rate-limit
/// key existed and the password was hashed; the keys are set, and a token is issued,
/// only after the insert added a row; a taken username is answered with
/// "Username already taken".
pub proof fn law_registration_protocol(
    m: Registration,
    ip: Result<bool, AppError>,
    user: Result<bool, AppError>,
    hashed: Result<String, AppError>,
    created: Result<bool, AppError>,
    token: Result<String, AppError>,
)
    requires
        m.step == (if m.rate_limited {
            RegisterStep::CheckingIp
        } else {
            RegisterStep::Hashing
        }),
    ensures
        ({
            let rl = m.rate_limited;
            let first = if rl {
                AuthAction::CheckKey(RateLimitKey::RegistrationIp)
            } else {
                AuthAction::HashPassword
            };
            let (fin, rest) = drive_registration(
                m,
                answer_registration(first, ip, user, hashed, created, token),
                ip,
                user,
                hashed,
                created,
                token,
                8,
            );
            let acts = seq![first] + rest;
            let clear = limits_clear(rl, seq![ip, user]);
            &&& fin.step == RegisterStep::Finished
            &&& acts == registration_protocol(rl, ip, user, hashed, created, token)
            &&& forall|h: String|
                #[trigger] acts.contains(AuthAction::CreateUser(h)) ==> clear && hashed == Ok::<
                    String,
                    AppError,
                >(h)
            &&& forall|k: RateLimitKey|
                #[trigger] acts.contains(AuthAction::SetKey(k)) ==> clear && created == Ok::<
                    bool,
                    AppError,
                >(true)
            &&& acts.contains(AuthAction::IssueToken) <==> clear && hashed is Ok && created == Ok::<
                bool,
                AppError,
            >(true)
            &&& (acts.last() == AuthAction::Reply(AuthReply::Refused(Refusal::UsernameTaken))
                <==> clear && hashed is Ok && created == Ok::<bool, AppError>(false))
        }),
{
    reveal_with_fuel(drive_registration, 9);
    let rl = m.rate_limited;
    let first = if rl {
        AuthAction::CheckKey(RateLimitKey::RegistrationIp)
    } else {
        AuthAction::HashPassword
    };
    let (fin, rest) = drive_registration(
        m,
        answer_registration(first, ip, user, hashed, created, token),
        ip,
        user,
        hashed,
        created,
        token,
        8,
    );
    let acts = seq![first] + rest;
    let p = registration_protocol(rl, ip, user, hashed, created, token);
    assert(acts =~= p);
    lemma_registration_protocol_facts(rl, ip, user, hashed, created, token);
}

proof fn lemma_registration_protocol_facts(
    rl: bool,
    ip: Result<bool, AppError>,
    user: Result<bool, AppError>,
    hashed: Result<String, AppError>,
    created: Result<bool, AppError>,
    token: Result<String, AppError>,
)
    ensures
        ({
            let acts = registration_protocol(rl, ip, user, hashed, created, token);
            let clear = limits_clear(rl, seq![ip, user]);
            &&& forall|h: String|
                #[trigger] acts.contains(AuthAction::CreateUser(h)) ==> clear && hashed == Ok::<
                    String,
                    AppError,
                >(h)
            &&& forall|k: RateLimitKey|
                #[trigger] acts.contains(AuthAction::SetKey(k)) ==> clear && created == Ok::<
                    bool,
                    AppError,
                >(true)
            &&& acts.contains(AuthAction::IssueToken) <==> clear && hashed is Ok && created == Ok::<
                bool,
                AppError,
            >(true)
            &&& (acts.last() == AuthAction::Reply(AuthReply::Refused(Refusal::UsernameTaken))
                <==> clear && hashed is Ok && created == Ok::<bool, AppError>(false))
        }),
{
    broadcast use vstd::seq_lib::group_seq_properties;

    let clear = limits_clear(rl, seq![ip, user]);
    assert(clear <==> (!rl || (ip == Ok::<bool, AppError>(false) && user == Ok::<bool, AppError>(
        false,
    )))) by {
        assert(seq![ip, user][0] == ip);
        assert(seq![ip, user][1] == user);
    }
}


/// The event with which the runner answers a login's action, given what the outside
/// work returns: whether the address key exists, the user looked up, whether the
/// password matches the stored hash, the token.
pub open spec fn answer_login(
    a: AuthAction,
    ip: Result<bool, AppError>,
    found: Result<Option<UserRow>, AppError>,
    verified: Result<bool, AppError>,
    token: Result<String, AppError>,
) -> AuthEvent {
    match a {
        AuthAction::CheckKey(_) => AuthEvent::KeyChecked(ip),
        AuthAction::FindUser => AuthEvent::Found(found),
        AuthAction::VerifyPassword(_) => AuthEvent::Verified(verified),
        AuthAction::IssueToken => AuthEvent::TokenIssued(token),
        _ => AuthEvent::KeySet,
    }
}

/// Run a login from `m` on event `e`, answering each action as `answer_login`
/// says, until it replies (at most `fuel` steps).
pub open spec fn drive_login(
    m: Login,
    e: AuthEvent,
    ip: Result<bool, AppError>,
    found: Result<Option<UserRow>, AppError>,
    verified: Result<bool, AppError>,
    token: Result<String, AppError>,
    fuel: nat,
) -> (Login, Seq<AuthAction>)
    decreases fuel,
{
    if fuel == 0 {
        (m, seq![])
    } else {
        let (m2, a) = next_login(m, e);
        if a is Reply || a is Wait {
            (m2, seq![a])
        } else {
            let (m3, rest) = drive_login(
                m2,
                answer_login(a, ip, found, verified, token),
                ip,
                found,
                verified,
                token,
                (fuel - 1) as nat,
            );
            (m3, seq![a] + rest)
        }
    }
}

/// The login protocol, as the actions asked for in order: check the address key
/// (when Redis is available; an existing key refuses), look the user up, check the
/// password against the stored hash (an unknown user and a wrong password get the
/// same refusal), set the address key, issue the token. Every failure of the
/// outside work is the reply.
pub open spec fn login_protocol(
    rate_limited: bool,
    ip: Result<bool, AppError>,
    found: Result<Option<UserRow>, AppError>,
    verified: Result<bool, AppError>,
    token: Result<String, AppError>,
) -> Seq<AuthAction> {
    let from_finding = seq![AuthAction::FindUser] + match found {
        Err(e) => seq![AuthAction::Reply(AuthReply::Failed(e))],
        Ok(None) => seq![AuthAction::Reply(AuthReply::Refused(Refusal::InvalidCredentials))],
        Ok(Some(u)) => seq![AuthAction::VerifyPassword(u.password)] + match verified {
            Err(e) => seq![AuthAction::Reply(AuthReply::Failed(e))],
            Ok(false) => seq![AuthAction::Reply(AuthReply::Refused(Refusal::InvalidCredentials))],
            Ok(true) => (if rate_limited {
                seq![AuthAction::SetKey(RateLimitKey::LoginIp)]
            } else {
                seq![]
            }) + seq![AuthAction::IssueToken, AuthAction::Reply(token_reply(token))],
        },
    };
    if !rate_limited {
        from_finding
    } else {
        seq![AuthAction::CheckKey(RateLimitKey::LoginIp)] + match ip {
            Err(e) => seq![AuthAction::Reply(AuthReply::Failed(e))],
            Ok(true) => seq![AuthAction::Reply(AuthReply::Refused(Refusal::TooManyLoginAttempts))],
            Ok(false) => from_finding,
        }
    }
}

/// A started login follows the login protocol and ends with a reply. In
/// particular: a token is issued, and the address key set, only when the password
/// matched the stored hash; an unknown username and a wrong password are refused
/// alike, with "Invalid username or password".
pub proof fn law_login_protocol(
    m: Login,
    ip: Result<bool, AppError>,
    found: Result<Option<UserRow>, AppError>,
    verified: Result<bool, AppError>,
    token: Result<String, AppError>,
)
    requires
        m.step == (if m.rate_limited {
            LoginStep::CheckingIp
        } else {
            LoginStep::Finding
        }),
    ensures
        ({
            let rl = m.rate_limited;
            let first = if rl {
                AuthAction::CheckKey(RateLimitKey::LoginIp)
            } else {
                AuthAction::FindUser
            };
            let (fin, rest) = drive_login(
                m,
                answer_login(first, ip, found, verified, token),
                ip,
                found,
                verified,
                token,
                6,
            );
            let acts = seq![first] + rest;
            let clear = !rl || ip == Ok::<bool, AppError>(false);
            &&& fin.step == LoginStep::Finished
            &&& acts == login_protocol(rl, ip, found, verified, token)
            &&& acts.contains(AuthAction::IssueToken) <==> clear && (found is Ok && found->Ok_0 is Some)
                && verified == Ok::<bool, AppError>(true)
            &&& acts.contains(AuthAction::SetKey(RateLimitKey::LoginIp)) <==> rl && clear
                && (found is Ok && found->Ok_0 is Some) && verified == Ok::<bool, AppError>(true)
            &&& (clear && (found == Ok::<Option<UserRow>, AppError>(None) || ((found is Ok && found->Ok_0 is Some) && verified == Ok::<bool, AppError>(false)))) ==> acts.last() == AuthAction::Reply(
                AuthReply::Refused(Refusal::InvalidCredentials),
            )
        }),
{
    reveal_with_fuel(drive_login, 7);
    broadcast use vstd::seq_lib::group_seq_properties;

    let rl = m.rate_limited;
    let first = if rl {
        AuthAction::CheckKey(RateLimitKey::LoginIp)
    } else {
        AuthAction::FindUser
    };
    let (fin, rest) = drive_login(
        m,
        answer_login(first, ip, found, verified, token),
        ip,
        found,
        verified,
        token,
        6,
    );
    let acts = seq![first] + rest;
    assert(acts =~= login_protocol(rl, ip, found, verified, token));
}

} // verus!
