//! Login, signup and token refresh: what each decides once the store has
//! answered, and how each outcome is reported.
//!
//! A refusal never says why. Whether the email is unknown or the password is
//! wrong, the caller gets the same error, and no error carries anything of the
//! user or of the stored hash.

use vstd::prelude::*;
use crate::api::{generate_error, is_error, ApiResponse, ErrorCategory, Status};
use crate::credentials::{hash, verifies, verify};
use crate::gate::{header_view, spec_authorize_refresh, AuthGate, GateDecision};
use crate::models::{User, UserView};
use crate::token::{complete_claims, issue, jwt_decoded, jwt_encoded, lives_until, ClaimsView};

verus! {

/// The body of a login request.
#[derive(Debug, Clone)]
pub struct LoginParams {
    pub email: String,
    pub password: String,
}

/// The body of a signup request.
#[derive(Debug, Clone)]
pub struct SignupParams {
    pub first_name: String,
    pub last_name: String,
    pub email: String,
    pub password: String,
    pub role: String,
}

/// The user record to create at signup. `password` is the hash.
#[derive(Debug, Clone)]
pub struct NewUser {
    pub first_name: String,
    pub last_name: String,
    pub email: String,
    pub password: String,
    pub role: String,
}

/// What the store made of the request to create a user.
#[derive(Debug, Clone)]
pub enum Insertion {
    /// The user was created; this is the record.
    Created(User),
    /// The store reported success but returned no record.
    Nothing,
    /// The store refused, as it does when the email is taken.
    Refused,
}

/// An authenticated user and the token issued to them.
#[derive(Debug, Clone)]
pub struct AuthRes {
    user: User,
    token: String,
}

/// Mathematical value of an [`AuthRes`].
pub struct AuthResView {
    pub user: UserView,
    pub token: Seq<char>,
}

impl View for AuthRes {
    type V = AuthResView;

    closed spec fn view(&self) -> AuthResView {
        AuthResView { user: self.user@, token: self.token@ }
    }
}

impl AuthRes {
    /// The answer that pairs `user` with `token`.
    pub fn new(user: User, token: String) -> (res: AuthRes)
        ensures
            res@ == (AuthResView { user: user@, token: token@ }),
    {
        Self { user, token }
    }

    /// The authenticated user.
    pub fn user(&self) -> (user: &User)
        ensures
            user@ == self@.user,
    {
        &self.user
    }

    /// The token issued to the user.
    pub fn token(&self) -> (token: &String)
        ensures
            token@ == self@.token,
    {
        &self.token
    }
}

/// Why a login, a signup or a refresh failed.
#[derive(Debug, Clone, Copy, PartialEq, Eq, Structural)]
pub enum AuthError {
    /// The email is unknown or the password is wrong; which of the two is
    /// not said.
    BadCredentials,
    /// The store refused to create the user.
    EmailTaken,
    /// The store created nothing.
    UserNotCreated,
    /// No user has the email that a token was asked for.
    UserNotFound,
    /// The password could not be hashed.
    Hashing,
    /// The token could not be signed.
    Signing,
    /// The request bears no valid token of the user it speaks for.
    Unauthenticated,
}

/// Mathematical value of an outcome.
pub open spec fn outcome_view(outcome: Result<AuthRes, AuthError>) -> Result<AuthResView, AuthError> {
    match outcome {
        Ok(res) => Ok(res@),
        Err(e) => Err(e),
    }
}

/// Mathematical value of an optional user.
pub open spec fn user_view(user: Option<User>) -> Option<UserView> {
    match user {
        Some(u) => Some(u@),
        None => None,
    }
}

/// The user with the token that signing gave to them; a failure if it gave
/// none.
pub open spec fn with_token(user: UserView, token: Option<Seq<char>>) -> Result<
    AuthResView,
    AuthError,
> {
    match token {
        Some(token) => Ok(AuthResView { user, token }),
        None => Err(AuthError::Signing),
    }
}

/// Whether the password opens the account that the store found, if it found
/// one.
pub open spec fn login_admits(password: Seq<char>, user: Option<UserView>) -> bool {
    user matches Some(u) && verifies(password, u.password)
}

/// The outcome of a login with `password`, where the store found `user` and
/// signing a token gives `token`.
pub open spec fn spec_login(
    password: Seq<char>,
    user: Option<UserView>,
    token: Option<Seq<char>>,
) -> Result<AuthResView, AuthError> {
    if login_admits(password, user) {
        with_token(user->0, token)
    } else {
        Err(AuthError::BadCredentials)
    }
}

/// The outcome of a signup, where the store answered `insertion` and signing
/// a token gives `token`.
pub open spec fn spec_signup(insertion: Insertion, token: Option<Seq<char>>) -> Result<
    AuthResView,
    AuthError,
> {
    match insertion {
        Insertion::Created(user) => with_token(user@, token),
        Insertion::Nothing => Err(AuthError::UserNotCreated),
        Insertion::Refused => Err(AuthError::EmailTaken),
    }
}

/// The outcome of a refresh, where the store found `user` and signing a token
/// gives `token`. A signing failure is reported before a missing user.
pub open spec fn spec_refresh(user: Option<UserView>, token: Option<Seq<char>>) -> Result<
    AuthResView,
    AuthError,
> {
    match token {
        None => Err(AuthError::Signing),
        Some(token) => match user {
            Some(user) => Ok(AuthResView { user, token }),
            None => Err(AuthError::UserNotFound),
        },
    }
}

/// The outcome of a request to reissue a token, where the guard decided
/// `decision` on the proof that the request bears. Without proof nothing is
/// signed, whatever the store found; with it, the outcome is that of
/// [`spec_refresh`].
pub open spec fn spec_guarded_refresh(
    decision: GateDecision,
    user: Option<UserView>,
    token: Option<Seq<char>>,
) -> Result<AuthResView, AuthError> {
    match decision {
        GateDecision::Unauthorized => Err(AuthError::Unauthenticated),
        GateDecision::Proceed => spec_refresh(user, token),
    }
}

/// The record that a signup creates, where hashing the password gave
/// `produced`: the parameters as they came, with the hash in place of the
/// password; or a hashing failure where hashing gave nothing.
pub open spec fn spec_signup_record(res: Result<NewUser, AuthError>, params: SignupParams, produced: Option<String>) -> bool {
    match produced {
        Some(hashed) => res matches Ok(record) && {
            &&& record.first_name@ == params.first_name@
            &&& record.last_name@ == params.last_name@
            &&& record.email@ == params.email@
            &&& record.role@ == params.role@
            &&& record.password@ == hashed@
        },
        None => res == Err::<NewUser, AuthError>(AuthError::Hashing),
    }
}

/// What a token in an answer is known to be: valid under `secret` from the
/// second it was issued up to `now + ttl`, expired after, and issued to
/// `email`.
pub open spec fn token_is_fresh(
    token: Seq<char>,
    email: Seq<char>,
    secret: Seq<char>,
    ttl: u64,
    now: u64,
) -> bool {
    &&& complete_claims(jwt_decoded(token, secret)) == Some(
        ClaimsView { sub: email, iat: now, exp: (now + ttl) as u64 },
    )
    &&& lives_until(token, secret, now + ttl)
}

/// Signs a token for `email` and pairs it with `user`.
fn grant(user: User, email: &str, secret: &str, ttl: u64, now: u64) -> (res: Result<
    AuthRes,
    AuthError,
>)
    requires
        now + ttl <= u64::MAX,
    ensures
        outcome_view(res) == with_token(
            user@,
            jwt_encoded(email@, now, (now + ttl) as u64, secret@),
        ),
        res matches Ok(auth) ==> token_is_fresh(auth@.token, email@, secret@, ttl, now),
{
    match issue(email, secret, ttl, now) {
        Ok(token) => Ok(AuthRes::new(user, token)),
        Err(_) => Err(AuthError::Signing),
    }
}

/// Decides a login. `user` is what the store found under the email of
/// `params`. Only a password that verifies against the stored hash is given a
/// token, issued to that email at `now` for `ttl` seconds.
pub fn handle_login(params: &LoginParams, user: Option<User>, secret: &str, ttl: u64, now: u64) -> (res:
    Result<AuthRes, AuthError>)
    requires
        now + ttl <= u64::MAX,
    ensures
        outcome_view(res) == spec_login(
            params.password@,
            user_view(user),
            jwt_encoded(params.email@, now, (now + ttl) as u64, secret@),
        ),
        res matches Ok(auth) ==> token_is_fresh(auth@.token, params.email@, secret@, ttl, now),
{
    match user {
        None => Err(AuthError::BadCredentials),
        Some(user) => {
            if verify(params.password.as_str(), user.password.as_str()) {
                grant(user, params.email.as_str(), secret, ttl, now)
            } else {
                Err(AuthError::BadCredentials)
            }
        },
    }
}

/// Prepares a signup: the record to create, which carries the hash in place
/// of the password. The password verifies against that hash.
pub fn prepare_signup(params: SignupParams) -> (res: Result<NewUser, AuthError>)
    ensures
        match res {
            Ok(record) => {
                &&& record.first_name@ == params.first_name@
                &&& record.last_name@ == params.last_name@
                &&& record.email@ == params.email@
                &&& record.role@ == params.role@
                &&& verifies(params.password@, record.password@)
            },
            Err(e) => e == AuthError::Hashing,
        },
{
    let produced = match hash(params.password.as_str()) {
        Ok(hashed) => Some(hashed),
        Err(_) => None,
    };
    signup_record(params, produced)
}

/// Builds the record of a signup from the parameters and from what hashing
/// the password gave. The record takes every parameter over as it came, but
/// for the password: in its place stands the hash, and only the hash. Where
/// hashing gave nothing there is no record.
pub fn signup_record(params: SignupParams, produced: Option<String>) -> (res: Result<
    NewUser,
    AuthError,
>)
    ensures
        spec_signup_record(res, params, produced),
{
    match produced {
        Some(hashed) => Ok(
            NewUser {
                first_name: params.first_name,
                last_name: params.last_name,
                email: params.email,
                password: hashed,
                role: params.role,
            },
        ),
        None => Err(AuthError::Hashing),
    }
}

/// Completes a signup once the store has answered. A created user is given a
/// token, issued to `email` at `now` for `ttl` seconds.
pub fn handle_signup(email: &str, insertion: Insertion, secret: &str, ttl: u64, now: u64) -> (res:
    Result<AuthRes, AuthError>)
    requires
        now + ttl <= u64::MAX,
    ensures
        outcome_view(res) == spec_signup(
            insertion,
            jwt_encoded(email@, now, (now + ttl) as u64, secret@),
        ),
        res matches Ok(auth) ==> token_is_fresh(auth@.token, email@, secret@, ttl, now),
{
    match insertion {
        Insertion::Created(user) => grant(user, email, secret, ttl, now),
        Insertion::Nothing => Err(AuthError::UserNotCreated),
        Insertion::Refused => Err(AuthError::EmailTaken),
    }
}

/// Issues a new token to `email` without asking for the password again, but
/// not without proof: the request has to bear a token that is valid at `now`
/// and was issued to `email`. `user` is what the store found under that email.
pub fn refresh(
    gate: &AuthGate,
    authorization: Option<&str>,
    email: &str,
    user: Option<User>,
    ttl: u64,
    now: u64,
) -> (res: Result<AuthRes, AuthError>)
    requires
        now + ttl <= u64::MAX,
    ensures
        outcome_view(res) == spec_guarded_refresh(
            spec_authorize_refresh(header_view(authorization), email@, gate.spec_secret(), now),
            user_view(user),
            jwt_encoded(email@, now, (now + ttl) as u64, gate.spec_secret()),
        ),
        res matches Ok(auth) ==> token_is_fresh(
            auth@.token,
            email@,
            gate.spec_secret(),
            ttl,
            now,
        ),
{
    match gate.check_refresh(authorization, email, now) {
        GateDecision::Unauthorized => Err(AuthError::Unauthenticated),
        GateDecision::Proceed => match issue(email, gate.secret().as_str(), ttl, now) {
            Err(_) => Err(AuthError::Signing),
            Ok(token) => match user {
                Some(user) => Ok(AuthRes::new(user, token)),
                None => Err(AuthError::UserNotFound),
            },
        },
    }
}

impl AuthError {
    /// The kind of failure that the error is: what the client sent wrong is
    /// a validation failure, an email that is taken a conflict, a missing
    /// proof of identity an authentication failure, and everything else
    /// internal.
    pub open spec fn spec_category(self) -> ErrorCategory {
        match self {
            AuthError::BadCredentials => ErrorCategory::Validation,
            AuthError::EmailTaken => ErrorCategory::Conflict,
            AuthError::Unauthenticated => ErrorCategory::Auth,
            _ => ErrorCategory::Internal,
        }
    }

    /// The status that the error is reported with: that of its kind.
    pub open spec fn spec_status(self) -> Status {
        self.spec_category().spec_status()
    }

    /// The kind of failure that the error is.
    pub fn category(&self) -> (category: ErrorCategory)
        ensures
            category == self.spec_category(),
    {
        match self {
            AuthError::BadCredentials => ErrorCategory::Validation,
            AuthError::EmailTaken => ErrorCategory::Conflict,
            AuthError::Unauthenticated => ErrorCategory::Auth,
            _ => ErrorCategory::Internal,
        }
    }

    /// The message that the error is reported with.
    pub open spec fn spec_message(self) -> Seq<char> {
        match self {
            AuthError::BadCredentials => "Email and/or password are wrong"@,
            AuthError::EmailTaken => "Email is already associated with another user"@,
            AuthError::UserNotCreated => "Error creating user"@,
            AuthError::UserNotFound => "Error generating token: no user found"@,
            AuthError::Hashing => "Error hashing password"@,
            AuthError::Signing => "Error generating token"@,
            AuthError::Unauthenticated => "Unauthorized"@,
        }
    }

    /// The status that the error is reported with.
    pub fn status(&self) -> (status: Status)
        ensures
            status == self.spec_status(),
    {
        self.category().status()
    }

    /// The message that the error is reported with. It is fixed for each
    /// error, so it cannot carry anything of a user or a hash.
    pub fn message(&self) -> (message: &'static str)
        ensures
            message@ == self.spec_message(),
    {
        match self {
            AuthError::BadCredentials => "Email and/or password are wrong",
            AuthError::EmailTaken => "Email is already associated with another user",
            AuthError::UserNotCreated => "Error creating user",
            AuthError::UserNotFound => "Error generating token: no user found",
            AuthError::Hashing => "Error hashing password",
            AuthError::Signing => "Error generating token",
            AuthError::Unauthenticated => "Unauthorized",
        }
    }
}

/// The answer to the client: success with the user and the token, or the
/// error's status and message.
pub fn auth_response(outcome: Result<AuthRes, AuthError>) -> (answer: (Status, ApiResponse<AuthRes>))
    ensures
        match outcome {
            Ok(auth) => answer.0 == Status::Success && answer.1 == ApiResponse::Success(auth),
            Err(e) => answer.0 == e.spec_status() && is_error(answer.1, e.spec_message()),
        },
{
    match outcome {
        Ok(auth) => (Status::Success, ApiResponse::Success(auth)),
        Err(e) => (e.status(), generate_error(e.message())),
    }
}

/// A token is reissued only against proof: where a refresh succeeds, the
/// guard had let the request through, which it does only for a bearer token
/// that is valid and was issued to the same email.
pub proof fn lemma_refresh_only_against_proof(
    decision: GateDecision,
    user: Option<UserView>,
    token: Option<Seq<char>>,
)
    requires
        spec_guarded_refresh(decision, user, token) is Ok,
    ensures
        decision == GateDecision::Proceed,
        user is Some,
        token is Some,
{
}

/// A refused login tells nothing about the account: whatever the store found,
/// and whatever signing would have given, every refusal is the same error.
pub proof fn lemma_refusal_reveals_nothing(
    password: Seq<char>,
    found: Option<UserView>,
    other: Option<UserView>,
    token: Option<Seq<char>>,
    other_token: Option<Seq<char>>,
)
    requires
        !login_admits(password, found),
        !login_admits(password, other),
    ensures
        spec_login(password, found, token) == spec_login(password, other, other_token),
        spec_login(password, found, token) == Err::<AuthResView, AuthError>(
            AuthError::BadCredentials,
        ),
{
}

/// A login succeeds only with a password that verifies against the hash of
/// the user that was found, and then it answers with that very user.
pub proof fn lemma_login_needs_the_password(
    password: Seq<char>,
    found: Option<UserView>,
    token: Option<Seq<char>>,
)
    requires
        spec_login(password, found, token) is Ok,
    ensures
        found is Some,
        verifies(password, found->0.password),
        spec_login(password, found, token)->Ok_0.user == found->0,
        token == Some(spec_login(password, found, token)->Ok_0.token),
{
}

} // verus!
