//! The guard in front of protected operations.
//!
//! The guard reads the bearer token out of the authorization header and lets a
//! request through only if that token is valid. Whatever is missing or
//! ambiguous is a rejection. The one exception is a guard that was built to
//! bypass validation, which lets every request through; it is built so for the
//! development mode only. A request to reissue a token is no part of that
//! exception: it always needs a valid token of the user it speaks for.

use vstd::prelude::*;
use crate::config::{same_text, Environment};
use crate::token::{jwt_decoded, now, proves_identity, token_state, validate, TokenState};

verus! {

/// Whether `c` separates the words of a header: the characters with the
/// Unicode property White_Space.
pub open spec fn is_space(c: char) -> bool {
    let n = c as u32;
    ||| 0x09 <= n <= 0x0D
    ||| n == 0x20
    ||| n == 0x85
    ||| n == 0xA0
    ||| n == 0x1680
    ||| 0x2000 <= n <= 0x200A
    ||| n == 0x2028
    ||| n == 0x2029
    ||| n == 0x202F
    ||| n == 0x205F
    ||| n == 0x3000
}

/// The first position at or after `from` whose character is a space (if
/// `space`) or is none (if not); the length of `s` if there is no such
/// position.
pub open spec fn first_where(s: Seq<char>, from: int, space: bool) -> int
    decreases s.len() - from,
{
    if from < 0 || from >= s.len() {
        s.len() as int
    } else if is_space(s[from]) == space {
        from
    } else {
        first_where(s, from + 1, space)
    }
}

/// Where the word begins that follows position `from`.
pub open spec fn word_start(s: Seq<char>, from: int) -> int {
    first_where(s, from, false)
}

/// Where the word ends that begins at `start`.
pub open spec fn word_end(s: Seq<char>, start: int) -> int {
    first_where(s, start, true)
}

/// The second of the words that spaces separate in `s`, if there are two.
pub open spec fn second_word(s: Seq<char>) -> Option<Seq<char>> {
    let first = word_start(s, 0);
    let second = word_start(s, word_end(s, first));
    if second < s.len() {
        Some(s.subrange(second, word_end(s, second)))
    } else {
        None
    }
}

/// What the guard decides.
#[derive(Debug, Clone, Copy, PartialEq, Eq, Structural)]
pub enum GateDecision {
    /// The request goes on to its handler, unchanged.
    Proceed,
    /// The request is answered as unauthorized; its handler never runs.
    Unauthorized,
}

/// The decision for a request with the given authorization header, at second
/// `now`.
pub open spec fn spec_authorize(
    bypass: bool,
    authorization: Option<Seq<char>>,
    secret: Seq<char>,
    now: u64,
) -> GateDecision {
    if bypass {
        GateDecision::Proceed
    } else {
        match authorization {
            None => GateDecision::Unauthorized,
            Some(header) => match second_word(header) {
                None => GateDecision::Unauthorized,
                Some(token) => if token_state(token, secret, now) == TokenState::Valid {
                    GateDecision::Proceed
                } else {
                    GateDecision::Unauthorized
                },
            },
        }
    }
}

/// The decision on a request to reissue the token of `email`, at second
/// `now`: it proceeds only against a bearer token that is valid then and was
/// issued to that same email. No bypass reaches this far: a token is reissued
/// against proof, in every mode.
pub open spec fn spec_authorize_refresh(
    authorization: Option<Seq<char>>,
    email: Seq<char>,
    secret: Seq<char>,
    now: u64,
) -> GateDecision {
    match authorization {
        None => GateDecision::Unauthorized,
        Some(header) => match second_word(header) {
            None => GateDecision::Unauthorized,
            Some(token) => if proves_identity(jwt_decoded(token, secret), email, now) {
                GateDecision::Proceed
            } else {
                GateDecision::Unauthorized
            },
        },
    }
}

/// Mathematical value of an optional header.
pub open spec fn header_view(authorization: Option<&str>) -> Option<Seq<char>> {
    match authorization {
        Some(header) => Some(header@),
        None => None,
    }
}

/// The first position from `from` on whose character is or is not a space.
proof fn lemma_first_where_bounds(s: Seq<char>, from: int, space: bool)
    requires
        0 <= from <= s.len(),
    ensures
        from <= first_where(s, from, space) <= s.len(),
        first_where(s, from, space) < s.len() ==> is_space(s[first_where(s, from, space)])
            == space,
        forall|i: int| from <= i < first_where(s, from, space) ==> is_space(#[trigger] s[i]) != space,
    decreases s.len() - from,
{
    if from < s.len() && is_space(s[from]) != space {
        lemma_first_where_bounds(s, from + 1, space);
    }
}

/// A header of a single word, with no space in it, has no second word.
pub proof fn lemma_single_word_has_no_token(s: Seq<char>)
    requires
        forall|i: int| 0 <= i < s.len() ==> !is_space(#[trigger] s[i]),
    ensures
        second_word(s) is None,
{
    lemma_first_where_bounds(s, 0, false);
    let first = word_start(s, 0);
    lemma_first_where_bounds(s, first, true);
    let end = word_end(s, first);
    if end < s.len() {
        assert(is_space(s[end]));
    }
    lemma_first_where_bounds(s, end, false);
}

/// What the second word is: it is a run of characters none of which is a
/// space, it is not empty, a space stands right before it, it ends at a space
/// or at the end of the header, and before it stand exactly one word and the
/// spaces around that word.
pub proof fn lemma_second_word_is_a_word(s: Seq<char>)
    requires
        second_word(s) is Some,
    ensures
        ({
            let first = word_start(s, 0);
            let gap = word_end(s, first);
            let start = word_start(s, gap);
            let end = word_end(s, start);
            let token = second_word(s)->0;
            &&& 0 <= first < gap < start < end <= s.len()
            &&& token == s.subrange(start, end)
            &&& token.len() > 0
            &&& forall|i: int| 0 <= i < token.len() ==> !is_space(#[trigger] token[i])
            &&& forall|i: int| 0 <= i < first ==> is_space(#[trigger] s[i])
            &&& forall|i: int| first <= i < gap ==> !is_space(#[trigger] s[i])
            &&& forall|i: int| gap <= i < start ==> is_space(#[trigger] s[i])
            &&& end < s.len() ==> is_space(s[end])
        }),
{
    let first = word_start(s, 0);
    lemma_first_where_bounds(s, 0, false);
    lemma_first_where_bounds(s, first, true);
    let gap = word_end(s, first);
    lemma_first_where_bounds(s, gap, false);
    let start = word_start(s, gap);
    lemma_first_where_bounds(s, start, true);
    let end = word_end(s, start);
    let token = s.subrange(start, end);
    assert forall|i: int| 0 <= i < token.len() implies !is_space(#[trigger] token[i]) by {
        assert(token[i] == s[start + i]);
    }
}

/// Whether `c` separates the words of a header.
pub fn is_separator(c: char) -> (space: bool)
    ensures
        space == is_space(c),
{
    let n: u32 = c as u32;
    (0x09 <= n && n <= 0x0D) || n == 0x20 || n == 0x85 || n == 0xA0 || n == 0x1680 || (0x2000 <= n
        && n <= 0x200A) || n == 0x2028 || n == 0x2029 || n == 0x202F || n == 0x205F || n == 0x3000
}

/// Scans `header`, which has `len` characters, from `from` on for the first
/// character that is a space (if `space`) or is none (if not).
fn scan(header: &str, len: usize, from: usize, space: bool) -> (at: usize)
    requires
        len == header@.len(),
        from <= len,
    ensures
        at == first_where(header@, from as int, space),
        from <= at <= len,
{
    let mut at: usize = from;
    while at < len && is_separator(header.get_char(at)) != space
        invariant
            len == header@.len(),
            from <= at <= len,
            first_where(header@, from as int, space) == first_where(header@, at as int, space),
        decreases len - at,
    {
        at = at + 1;
    }
    proof {
        lemma_first_where_bounds(header@, at as int, space);
    }
    at
}

/// The bearer token of an authorization header: its second word.
pub fn bearer_token(header: &str) -> (token: Option<&str>)
    ensures
        match token {
            Some(word) => second_word(header@) == Some(word@),
            None => second_word(header@) is None,
        },
{
    let len: usize = header.unicode_len();
    let first: usize = scan(header, len, 0, false);
    let gap: usize = scan(header, len, first, true);
    let start: usize = scan(header, len, gap, false);
    if start < len {
        let end: usize = scan(header, len, start, true);
        Some(header.substring_char(start, end))
    } else {
        None
    }
}

/// The guard's configuration: the secret that tokens are checked under, and
/// whether validation is bypassed altogether.
#[derive(Debug, Clone)]
pub struct AuthGate {
    bypass_validation: bool,
    secret: String,
}

impl AuthGate {
    /// Whether this guard lets every request through.
    pub closed spec fn spec_bypasses(&self) -> bool {
        self.bypass_validation
    }

    /// The secret that this guard checks tokens under.
    pub closed spec fn spec_secret(&self) -> Seq<char> {
        self.secret@
    }

    /// A guard that checks tokens under `secret`, or, if `bypass_validation`
    /// is set, checks nothing at all. Bypassing switches authentication off:
    /// it is for local testing only, and has to be asked for here in so many
    /// words.
    pub fn new(bypass_validation: bool, secret: String) -> (gate: AuthGate)
        ensures
            gate.spec_bypasses() == bypass_validation,
            gate.spec_secret() == secret@,
    {
        AuthGate { bypass_validation, secret }
    }

    /// The guard for a runtime mode: it bypasses validation in development
    /// and nowhere else.
    pub fn for_environment(env: &Environment, secret: String) -> (gate: AuthGate)
        ensures
            gate.spec_bypasses() == (*env == Environment::DEV),
            gate.spec_secret() == secret@,
    {
        AuthGate::new(env.is_dev(), secret)
    }

    /// The secret that this guard checks tokens under.
    pub fn secret(&self) -> (secret: &String)
        ensures
            secret@ == self.spec_secret(),
    {
        &self.secret
    }

    /// Whether this guard lets every request through.
    #[verifier::when_used_as_spec(spec_bypasses)]
    pub fn bypasses(&self) -> (bypass: bool)
        ensures
            bypass == self.spec_bypasses(),
    {
        self.bypass_validation
    }

    /// Decides on a request to reissue the token of `email`, at second `now`.
    /// The request proceeds only if it bears a token that is valid at `now`
    /// and was issued to `email`; a guard that bypasses validation demands
    /// this proof like any other.
    pub fn check_refresh(&self, authorization: Option<&str>, email: &str, now: u64) -> (decision:
        GateDecision)
        ensures
            decision == spec_authorize_refresh(
                header_view(authorization),
                email@,
                self.spec_secret(),
                now,
            ),
    {
        let header = match authorization {
            Some(header) => header,
            None => {
                return GateDecision::Unauthorized;
            },
        };
        match bearer_token(header) {
            None => GateDecision::Unauthorized,
            Some(token) => match validate(token, self.secret.as_str(), now) {
                Ok(claims) => {
                    if same_text(claims.subject().as_str(), email) {
                        GateDecision::Proceed
                    } else {
                        GateDecision::Unauthorized
                    }
                },
                Err(_) => GateDecision::Unauthorized,
            },
        }
    }

    /// Decides on a request at second `now`.
    pub fn check(&self, authorization: Option<&str>, now: u64) -> (decision: GateDecision)
        ensures
            decision == spec_authorize(
                self.spec_bypasses(),
                header_view(authorization),
                self.spec_secret(),
                now,
            ),
    {
        authorize(self.bypass_validation, authorization, self.secret.as_str(), now)
    }
}

/// Decides on a request with the given authorization header, at second `now`.
///
/// Without bypass, the request proceeds only if the header is there, has a
/// second word, and that word is a token valid under `secret` at `now`.
pub fn authorize(bypass: bool, authorization: Option<&str>, secret: &str, now: u64) -> (decision:
    GateDecision)
    ensures
        decision == spec_authorize(bypass, header_view(authorization), secret@, now),
{
    if bypass {
        return GateDecision::Proceed;
    }
    let header = match authorization {
        Some(header) => header,
        None => {
            return GateDecision::Unauthorized;
        },
    };
    match bearer_token(header) {
        None => GateDecision::Unauthorized,
        Some(token) => match validate(token, secret, now) {
            Ok(_) => GateDecision::Proceed,
            Err(_) => GateDecision::Unauthorized,
        },
    }
}

/// Decides on a request at the current time. What does not depend on the clock
/// is decided as [`authorize`] says; where a token has to be checked, the
/// decision is the one for the second that the clock read.
pub fn jwt_middleware(gate: &AuthGate, authorization: Option<&str>) -> (decision: GateDecision)
    ensures
        exists|at: u64| #[trigger]
            spec_authorize(gate.spec_bypasses(), header_view(authorization), gate.spec_secret(), at)
                == decision,
        gate.spec_bypasses() ==> decision == GateDecision::Proceed,
        !gate.spec_bypasses() && (authorization is None || second_word(authorization->0@) is None)
            ==> decision == GateDecision::Unauthorized,
{
    let at: u64 = now();
    let decision = gate.check(authorization, at);
    assert(spec_authorize(gate.spec_bypasses(), header_view(authorization), gate.spec_secret(), at)
        == decision);
    decision
}

/// Authentication is switched off only where that is asked for in so many
/// words: a guard built for the mode that a name stands for bypasses
/// validation only if the name is `development`. Every other name, the empty
/// and the unknown included, gives a guard that checks every request.
pub proof fn lemma_bypass_is_asked_for(lower: Seq<char>)
    ensures
        Environment::spec_named(lower) == Environment::DEV <==> lower == "development"@,
        lower != "development"@ ==> forall|
            authorization: Option<Seq<char>>,
            secret: Seq<char>,
            now: u64,
        |
            spec_authorize(
                Environment::spec_named(lower) == Environment::DEV,
                authorization,
                secret,
                now,
            ) == #[trigger] spec_authorize(false, authorization, secret, now),
{
}

/// Nothing is reissued without proof of who asks: a request to reissue the
/// token of `email` proceeds only if it bears a token, that token is valid at
/// that second, and it was issued to `email`. So a request with no token, with
/// an expired or invalid one, or with the valid token of someone else is
/// unauthorized.
pub proof fn lemma_refresh_needs_proof(
    authorization: Option<Seq<char>>,
    email: Seq<char>,
    secret: Seq<char>,
    now: u64,
)
    requires
        spec_authorize_refresh(authorization, email, secret, now) == GateDecision::Proceed,
    ensures
        authorization is Some,
        second_word(authorization->0) is Some,
        token_state(second_word(authorization->0)->0, secret, now) == TokenState::Valid,
        proves_identity(jwt_decoded(second_word(authorization->0)->0, secret), email, now),
        spec_authorize(false, authorization, secret, now) == GateDecision::Proceed,
{
}

/// The guard fails closed: without bypass, a request with no authorization
/// header, or with a header that has no second word, is unauthorized, whatever
/// the secret and the time.
pub proof fn lemma_gate_fails_closed(authorization: Option<Seq<char>>, secret: Seq<char>, now: u64)
    requires
        authorization is None || second_word(authorization->0) is None,
    ensures
        spec_authorize(false, authorization, secret, now) == GateDecision::Unauthorized,
{
}

/// Without bypass, the guard lets a request through only with a token that is
/// valid at that second: an expired or invalid token is never enough.
pub proof fn lemma_gate_admits_only_valid_tokens(
    authorization: Option<Seq<char>>,
    secret: Seq<char>,
    now: u64,
)
    requires
        spec_authorize(false, authorization, secret, now) == GateDecision::Proceed,
    ensures
        authorization is Some,
        second_word(authorization->0) is Some,
        token_state(second_word(authorization->0)->0, secret, now) == TokenState::Valid,
{
}

} // verus!
