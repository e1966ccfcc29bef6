//! The token issuer: signed session tokens with a limited lifetime.
//!
//! Signing and signature checking are jsonwebtoken's. The lifetime is decided
//! here: a token whose signature holds is valid up to and including the second
//! it expires, and expired from the next second on. Time is always a
//! parameter of that decision, so it can be stated for every instant.

use vstd::prelude::*;
use crate::api::{generate_error, is_error, ApiResponse, ErrorCategory, Status};
use crate::config::same_text;

verus! {

/// `jsonwebtoken::errors::Error`, carried but never looked into.
#[verifier::external_type_specification]
#[verifier::external_body]
pub struct ExJwtError(jsonwebtoken::errors::Error);

/// Lifetime, in seconds, of the tokens that [`generate_jwt`] issues.
pub const ACCESS_TOKEN_TTL: u64 = 900;

/// What a token claims: who it was issued to, when, and until when.
#[derive(Debug, Clone)]
pub struct Claims {
    sub: String,
    iat: u64,
    exp: u64,
}

/// Mathematical value of [`Claims`].
pub struct ClaimsView {
    pub sub: Seq<char>,
    pub iat: u64,
    pub exp: u64,
}

impl View for Claims {
    type V = ClaimsView;

    closed spec fn view(&self) -> ClaimsView {
        ClaimsView { sub: self.sub@, iat: self.iat, exp: self.exp }
    }
}

impl Claims {
    /// The identity that the token was issued to.
    pub fn subject(&self) -> (sub: &String)
        ensures
            sub@ == self@.sub,
    {
        &self.sub
    }

    /// The second at which the token was issued.
    pub fn issued_at(&self) -> (iat: u64)
        ensures
            iat == self@.iat,
    {
        self.iat
    }

    /// The last second at which the token is valid.
    pub fn expires_at(&self) -> (exp: u64)
        ensures
            exp == self@.exp,
    {
        self.exp
    }
}

/// Why a token was not issued or not accepted.
#[derive(Debug, Clone, Copy, PartialEq, Eq, Structural)]
pub enum TokenError {
    /// The signature holds, but the token's lifetime is over.
    ExpiredSignature,
    /// The signature does not hold, or the token is not of the expected shape.
    InvalidToken,
    /// The signing backend failed; no token was issued.
    SigningFailed,
}

/// The validity of a token at an instant.
#[derive(Debug, Clone, Copy, PartialEq, Eq, Structural)]
pub enum TokenState {
    Valid,
    Expired,
    Invalid,
}

/// The three claims as they come out of a token whose signature holds, each
/// present only if the token carries it with the right type.
pub type RawClaims = (Option<String>, Option<u64>, Option<u64>);

/// Mathematical value of [`RawClaims`].
pub type RawClaimsView = (Option<Seq<char>>, Option<u64>, Option<u64>);

/// The token that `jsonwebtoken::encode` makes of the three claims under the
/// secret, with the default header (HS256); `None` where it reports an error.
pub uninterp spec fn jwt_encoded(sub: Seq<char>, iat: u64, exp: u64, secret: Seq<char>) -> Option<
    Seq<char>,
>;

/// What `jsonwebtoken::decode` finds in a token under the secret, for HS256
/// and with its own expiry check switched off: the claims `sub`, `iat` and
/// `exp` as far as they are present, or `None` where it reports an error.
pub uninterp spec fn jwt_decoded(token: Seq<char>, secret: Seq<char>) -> Option<RawClaimsView>;

/// Calls `chrono::Utc::now` and takes its Unix timestamp. Nothing is known of
/// the result. The call panics if the system clock stands before 1970.
#[verifier::external_body]
fn utc_timestamp() -> (seconds: i64) {
    chrono::Utc::now().timestamp()
}

/// Calls `jsonwebtoken::encode` on the claims `sub`, `iat`, `exp` with the
/// default header and the secret as HMAC key. Trusted: the result depends on
/// the arguments alone; and a token that comes back is one that
/// `jsonwebtoken::decode` accepts under the same secret and reads the same
/// three claims from, since it recomputes the signature over the same bytes
/// and parses the JSON that was written.
#[verifier::external_body]
fn jwt_encode(sub: &str, iat: u64, exp: u64, secret: &str) -> (res: Result<
    String,
    jsonwebtoken::errors::Error,
>)
    ensures
        match res {
            Ok(token) => jwt_encoded(sub@, iat, exp, secret@) == Some(token@) && jwt_decoded(
                token@,
                secret@,
            ) == Some((Some(sub@), Some(iat), Some(exp))),
            Err(_) => jwt_encoded(sub@, iat, exp, secret@) is None,
        },
{
    let mut claims = serde_json::Map::new();
    claims.insert("sub".to_string(), serde_json::Value::from(sub));
    claims.insert("iat".to_string(), serde_json::Value::from(iat));
    claims.insert("exp".to_string(), serde_json::Value::from(exp));
    let key = jsonwebtoken::EncodingKey::from_secret(secret.as_bytes());
    jsonwebtoken::encode(&jsonwebtoken::Header::default(), &claims, &key)
}

/// Calls `jsonwebtoken::decode` for HS256 with the secret as HMAC key and with
/// the crate's own expiry check switched off, then hands out the claims `sub`
/// (if a string), `iat` and `exp` (if unsigned integers). Trusted: with the
/// expiry check off the result depends on the token and the secret alone. The
/// crate still reads the system clock while validating, and panics if that
/// clock stands before 1970.
#[verifier::external_body]
fn jwt_decode(token: &str, secret: &str) -> (res: Result<RawClaims, jsonwebtoken::errors::Error>)
    ensures
        match res {
            Ok(raw) => jwt_decoded(token@, secret@) == Some(raw_view(raw)),
            Err(_) => jwt_decoded(token@, secret@) is None,
        },
{
    let mut validation = jsonwebtoken::Validation::new(jsonwebtoken::Algorithm::HS256);
    validation.validate_exp = false;
    let key = jsonwebtoken::DecodingKey::from_secret(secret.as_bytes());
    let data = jsonwebtoken::decode::<serde_json::Value>(token, &key, &validation)?;
    let sub = data.claims.get("sub").and_then(serde_json::Value::as_str).map(str::to_owned);
    let iat = data.claims.get("iat").and_then(serde_json::Value::as_u64);
    let exp = data.claims.get("exp").and_then(serde_json::Value::as_u64);
    Ok((sub, iat, exp))
}

/// Mathematical value of raw claims.
pub open spec fn raw_view(raw: RawClaims) -> RawClaimsView {
    (
        match raw.0 {
            Some(sub) => Some(sub@),
            None => None,
        },
        raw.1,
        raw.2,
    )
}

/// Mathematical value of what decoding gave.
pub open spec fn decoded_view(decoded: Option<RawClaims>) -> Option<RawClaimsView> {
    match decoded {
        Some(raw) => Some(raw_view(raw)),
        None => None,
    }
}

/// The claims of a decoded token, if the signature held and all three are
/// there.
pub open spec fn complete_claims(decoded: Option<RawClaimsView>) -> Option<ClaimsView> {
    match decoded {
        Some((Some(sub), Some(iat), Some(exp))) => Some(ClaimsView { sub, iat, exp }),
        _ => None,
    }
}

/// The validity at second `now` of a token that decoded to `decoded`: invalid
/// unless the signature held and the claims are complete; then valid while
/// `now <= exp`, and expired after.
pub open spec fn state_of(decoded: Option<RawClaimsView>, now: u64) -> TokenState {
    match complete_claims(decoded) {
        None => TokenState::Invalid,
        Some(claims) => if now <= claims.exp {
            TokenState::Valid
        } else {
            TokenState::Expired
        },
    }
}

/// The validity of `token` under `secret` at second `now`.
pub open spec fn token_state(token: Seq<char>, secret: Seq<char>, now: u64) -> TokenState {
    state_of(jwt_decoded(token, secret), now)
}

/// What validation returns for a token that decoded to `decoded`, at `now`.
pub open spec fn spec_classify(decoded: Option<RawClaimsView>, now: u64) -> Result<
    ClaimsView,
    TokenError,
> {
    match state_of(decoded, now) {
        TokenState::Valid => Ok(complete_claims(decoded)->0),
        TokenState::Expired => Err(TokenError::ExpiredSignature),
        TokenState::Invalid => Err(TokenError::InvalidToken),
    }
}

/// Mathematical value of a validation result.
pub open spec fn validation_view(res: Result<Claims, TokenError>) -> Result<ClaimsView, TokenError> {
    match res {
        Ok(claims) => Ok(claims@),
        Err(e) => Err(e),
    }
}

/// Whether `token` is what issuing to `subject` at second `now`, for `ttl`
/// seconds and under `secret`, produces.
pub open spec fn is_issued(
    token: Seq<char>,
    subject: Seq<char>,
    secret: Seq<char>,
    ttl: u64,
    now: u64,
) -> bool {
    &&& now + ttl <= u64::MAX
    &&& jwt_encoded(subject, now, (now + ttl) as u64, secret) == Some(token)
}

/// Whether `token` is valid under `secret` at every second up to and
/// including `last`, and expired at every second after it.
pub open spec fn lives_until(token: Seq<char>, secret: Seq<char>, last: int) -> bool {
    forall|at: u64|
        #[trigger] token_state(token, secret, at) == if at <= last {
            TokenState::Valid
        } else {
            TokenState::Expired
        }
}

/// What issuing to `subject` at second `now`, for `ttl` seconds and under
/// `secret`, returns: the token that signing gives, which then carries exactly
/// these claims and lives until `now + ttl`; or `SigningFailed` where signing
/// gives none.
pub open spec fn spec_issue(
    res: Result<String, TokenError>,
    subject: Seq<char>,
    secret: Seq<char>,
    ttl: u64,
    now: u64,
) -> bool {
    match res {
        Ok(token) => {
            &&& is_issued(token@, subject, secret, ttl, now)
            &&& complete_claims(jwt_decoded(token@, secret)) == Some(
                ClaimsView { sub: subject, iat: now, exp: (now + ttl) as u64 },
            )
            &&& lives_until(token@, secret, now + ttl)
        },
        Err(e) => e == TokenError::SigningFailed && jwt_encoded(
            subject,
            now,
            (now + ttl) as u64,
            secret,
        ) is None,
    }
}

/// The current time as seconds since 1970, as the system clock reads it.
pub fn now() -> (seconds: u64)
    ensures
        seconds <= i64::MAX,
{
    let reading: i64 = utc_timestamp();
    epoch_seconds(reading)
}

/// The second that a clock reading stands for: the reading itself, or 0 for a
/// negative reading, which would be a time before 1970.
pub open spec fn spec_epoch_seconds(reading: i64) -> u64 {
    if reading < 0 {
        0
    } else {
        reading as u64
    }
}

/// The second that a clock reading stands for.
pub fn epoch_seconds(reading: i64) -> (seconds: u64)
    ensures
        seconds == spec_epoch_seconds(reading),
{
    if reading < 0 {
        0
    } else {
        reading as u64
    }
}

/// Decides on a decoded token: the signature comes first, the lifetime second.
/// A token that failed decoding, or lacks a claim, is invalid whatever the
/// time; a complete one is accepted with its claims while `now <= exp`.
pub fn classify(decoded: Option<RawClaims>, now: u64) -> (res: Result<Claims, TokenError>)
    ensures
        validation_view(res) == spec_classify(decoded_view(decoded), now),
{
    match decoded {
        Some((Some(sub), Some(iat), Some(exp))) => {
            if now <= exp {
                Ok(Claims { sub, iat, exp })
            } else {
                Err(TokenError::ExpiredSignature)
            }
        },
        _ => Err(TokenError::InvalidToken),
    }
}

/// Issues a token to `subject`, issued at `now` and expiring `ttl` seconds
/// later.
///
/// The token that comes back is valid under the same secret at every second up
/// to `now + ttl`, expired at every later one, and names `subject`.
pub fn issue(subject: &str, secret: &str, ttl: u64, now: u64) -> (res: Result<String, TokenError>)
    requires
        now + ttl <= u64::MAX,
    ensures
        spec_issue(res, subject@, secret@, ttl, now),
{
    match jwt_encode(subject, now, now + ttl, secret) {
        Ok(token) => Ok(token),
        Err(_) => Err(TokenError::SigningFailed),
    }
}

/// Checks `token` under `secret` at second `now`, and returns its claims if it
/// is valid.
pub fn validate(token: &str, secret: &str, now: u64) -> (res: Result<Claims, TokenError>)
    ensures
        validation_view(res) == spec_classify(jwt_decoded(token@, secret@), now),
        res is Ok <==> token_state(token@, secret@, now) == TokenState::Valid,
        res == Err::<Claims, TokenError>(TokenError::ExpiredSignature) <==> token_state(
            token@,
            secret@,
            now,
        ) == TokenState::Expired,
        res == Err::<Claims, TokenError>(TokenError::InvalidToken) <==> token_state(
            token@,
            secret@,
            now,
        ) == TokenState::Invalid,
{
    let decoded = match jwt_decode(token, secret) {
        Ok(raw) => Some(raw),
        Err(_) => None,
    };
    classify(decoded, now)
}

/// Whether a decoded token proves, at second `now`, that its bearer is
/// `subject`: it is valid then, and it was issued to `subject`.
pub open spec fn proves_identity(decoded: Option<RawClaimsView>, subject: Seq<char>, now: u64) -> bool {
    state_of(decoded, now) == TokenState::Valid && complete_claims(decoded)->0.sub == subject
}

/// What refreshing returns against a proof that decoded to `proof`: a proof
/// that is expired or invalid is refused as such; a valid proof of another
/// subject is refused as invalid; and a valid proof of `subject` gives what
/// issuing to `subject` gives.
pub open spec fn spec_refresh(
    res: Result<String, TokenError>,
    proof: Option<RawClaimsView>,
    subject: Seq<char>,
    secret: Seq<char>,
    ttl: u64,
    now: u64,
) -> bool {
    match spec_classify(proof, now) {
        Err(e) => res == Err::<String, TokenError>(e),
        Ok(claims) => if claims.sub == subject {
            spec_issue(res, subject, secret, ttl, now)
        } else {
            res == Err::<String, TokenError>(TokenError::InvalidToken)
        },
    }
}

/// Issues a new token to `subject` without asking for the password again,
/// against the proof of a token that is still valid and was issued to the same
/// subject. Without such a proof nothing is issued.
pub fn refresh(subject: &str, proof: &str, secret: &str, ttl: u64, now: u64) -> (res: Result<
    String,
    TokenError,
>)
    requires
        now + ttl <= u64::MAX,
    ensures
        spec_refresh(res, jwt_decoded(proof@, secret@), subject@, secret@, ttl, now),
        res is Ok ==> proves_identity(jwt_decoded(proof@, secret@), subject@, now),
{
    match validate(proof, secret, now) {
        Err(e) => Err(e),
        Ok(claims) => {
            if same_text(claims.subject().as_str(), subject) {
                issue(subject, secret, ttl, now)
            } else {
                Err(TokenError::InvalidToken)
            }
        },
    }
}

/// Issues a token to `sub` at the current time, for [`ACCESS_TOKEN_TTL`]
/// seconds. Whatever second the clock read, the result is what issuing at
/// that second gives: a token that carries `sub`, is valid under `secret` from
/// then on for the lifetime and expired after it.
pub fn generate_jwt(sub: &String, secret: &String) -> (res: Result<String, TokenError>)
    ensures
        exists|at: u64| #[trigger] spec_issue(res, sub@, secret@, ACCESS_TOKEN_TTL, at),
{
    let at: u64 = now();
    let res = issue(sub.as_str(), secret.as_str(), ACCESS_TOKEN_TTL, at);
    assert(spec_issue(res, sub@, secret@, ACCESS_TOKEN_TTL, at));
    res
}

/// What checking at the current time returns, if the clock read second `at`:
/// `Ok(true)` for a token valid then, and the error of validation otherwise.
pub open spec fn spec_validate_jwt(
    res: Result<bool, TokenError>,
    decoded: Option<RawClaimsView>,
    at: u64,
) -> bool {
    match spec_classify(decoded, at) {
        Ok(_) => res == Ok::<bool, TokenError>(true),
        Err(e) => res == Err::<bool, TokenError>(e),
    }
}

/// What the route answers for a token that is in `state`: yes for a valid
/// one, and unauthorized, without saying why, for any other.
pub open spec fn spec_route_answer(answer: (Status, ApiResponse<bool>), state: TokenState) -> bool {
    if state == TokenState::Valid {
        answer.0 == Status::Success && answer.1 == ApiResponse::Success(true)
    } else {
        answer.0 == Status::Unauthorized && is_error(answer.1, "Invalid JWT Token"@)
    }
}

/// Checks `token` under `secret` at the current time. `Ok` always carries
/// `true`. Whether the token is invalid does not depend on the clock; whether
/// it is valid or expired is said of the second that the clock read.
pub fn validate_jwt(token: &String, secret: &String) -> (res: Result<bool, TokenError>)
    ensures
        exists|at: u64| #[trigger] spec_validate_jwt(res, jwt_decoded(token@, secret@), at),
        res == Err::<bool, TokenError>(TokenError::InvalidToken) <==> complete_claims(
            jwt_decoded(token@, secret@),
        ) is None,
        res != Err::<bool, TokenError>(TokenError::SigningFailed),
{
    let at: u64 = now();
    let res = match validate(token.as_str(), secret.as_str(), at) {
        Ok(_) => Ok(true),
        Err(e) => Err(e),
    };
    assert(spec_validate_jwt(res, jwt_decoded(token@, secret@), at));
    res
}

/// A token whose signature holds is valid at every second up to and including
/// the one it expires at, and expired at every second after it.
pub proof fn lemma_valid_until_expiry(decoded: Option<RawClaimsView>, before: u64, after: u64)
    requires
        complete_claims(decoded) is Some,
        before <= complete_claims(decoded)->0.exp < after,
    ensures
        state_of(decoded, before) == TokenState::Valid,
        state_of(decoded, after) == TokenState::Expired,
{
}

/// Time only ever expires a token: once expired it stays expired, a token
/// valid now was valid before, and whether a token is invalid does not depend
/// on the time at all.
pub proof fn lemma_expiry_is_final(decoded: Option<RawClaimsView>, earlier: u64, later: u64)
    requires
        earlier <= later,
    ensures
        state_of(decoded, earlier) == TokenState::Expired ==> state_of(decoded, later)
            == TokenState::Expired,
        state_of(decoded, later) == TokenState::Valid ==> state_of(decoded, earlier)
            == TokenState::Valid,
        state_of(decoded, earlier) == TokenState::Invalid <==> state_of(decoded, later)
            == TokenState::Invalid,
{
}

impl TokenError {
    /// The kind of failure that the error is: a token that does not hold is
    /// an authentication failure, and a signing failure is internal.
    pub open spec fn spec_category(self) -> ErrorCategory {
        match self {
            TokenError::ExpiredSignature => ErrorCategory::Auth,
            TokenError::InvalidToken => ErrorCategory::Auth,
            TokenError::SigningFailed => ErrorCategory::Internal,
        }
    }

    /// The kind of failure that the error is.
    pub fn category(&self) -> (category: ErrorCategory)
        ensures
            category == self.spec_category(),
    {
        match self {
            TokenError::ExpiredSignature => ErrorCategory::Auth,
            TokenError::InvalidToken => ErrorCategory::Auth,
            TokenError::SigningFailed => ErrorCategory::Internal,
        }
    }
}

/// The answer to a client that asked whether its token holds: yes, or
/// unauthorized with a message that does not say why.
pub fn token_response(outcome: Result<bool, TokenError>) -> (answer: (Status, ApiResponse<bool>))
    ensures
        match outcome {
            Ok(_) => answer.0 == Status::Success && answer.1 == ApiResponse::Success(true),
            Err(_) => answer.0 == Status::Unauthorized && is_error(answer.1, "Invalid JWT Token"@),
        },
{
    match outcome {
        Ok(_) => (Status::Success, ApiResponse::Success(true)),
        Err(_) => (Status::Unauthorized, generate_error("Invalid JWT Token")),
    }
}

/// Tells a client whether `token` holds under `secret` at the current time.
/// Whatever second the clock read, the answer is the one for the token's
/// state at that second.
pub fn validate_jwt_route(secret: &String, token: &String) -> (answer: (Status, ApiResponse<bool>))
    ensures
        exists|at: u64| spec_route_answer(answer, #[trigger] token_state(token@, secret@, at)),
        answer.0 == Status::Success ==> exists|at: u64| #[trigger]
            token_state(token@, secret@, at) == TokenState::Valid,
        answer.0 == Status::Unauthorized ==> exists|at: u64| #[trigger]
            token_state(token@, secret@, at) != TokenState::Valid,
        complete_claims(jwt_decoded(token@, secret@)) is None ==> answer.0 == Status::Unauthorized,
{
    let res = validate_jwt(token, secret);
    let answer = token_response(res);
    proof {
        let at = choose|at: u64| #[trigger]
            spec_validate_jwt(res, jwt_decoded(token@, secret@), at);
        assert(spec_route_answer(answer, token_state(token@, secret@, at)));
    }
    answer
}

} // verus!
