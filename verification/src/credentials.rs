//! The credential store: one-way hashing of secrets, and their verification.
//!
//! The hashing itself is bcrypt's. What is proved here is how its answers are
//! used: a secret is accepted only when bcrypt says that it matches, and
//! anything else, a mismatch or a stored hash that cannot be read, is a
//! rejection and never an error.

use vstd::prelude::*;

verus! {

/// `bcrypt::BcryptError`, carried but never looked into.
#[verifier::external_type_specification]
#[verifier::external_body]
pub struct ExBcryptError(bcrypt::BcryptError);

/// The hashing backend failed. No hash was produced, and callers must not
/// store anything in its place.
#[derive(Debug, Clone, Copy, PartialEq, Eq, Structural)]
pub struct HashingError;

/// The answer of `bcrypt::verify` for a secret and a stored hash: `Some` of
/// whether they match, or `None` where it reports an error.
pub uninterp spec fn bcrypt_verdict(secret: Seq<char>, hashed: Seq<char>) -> Option<bool>;

/// Calls `bcrypt::verify`. Trusted: the call's answer depends on the secret
/// and the stored hash alone, so it is the same whenever they are the same.
/// The call repeats the hashing at the cost that the stored hash names, so
/// the time it takes doubles with each step of that cost.
#[verifier::external_body]
fn bcrypt_verify(secret: &str, hashed: &str) -> (res: Result<bool, bcrypt::BcryptError>)
    ensures
        match res {
            Ok(matched) => bcrypt_verdict(secret@, hashed@) == Some(matched),
            Err(_) => bcrypt_verdict(secret@, hashed@) is None,
        },
{
    bcrypt::verify(secret, hashed)
}

/// Calls `bcrypt::hash` at the default cost. The salt is drawn at random, so
/// nothing is said about which hash comes back. Trusted: a hash that does come
/// back is one that `bcrypt::verify` matches with the same secret, since it
/// reads salt and cost out of the hash and repeats the computation.
#[verifier::external_body]
fn bcrypt_hash(secret: &str) -> (res: Result<String, bcrypt::BcryptError>)
    ensures
        res matches Ok(hashed) ==> bcrypt_verdict(secret@, hashed@) == Some(true),
{
    bcrypt::hash(secret, bcrypt::DEFAULT_COST)
}

/// Whether a verdict lets the secret through: only a clear match does.
pub open spec fn accepts(verdict: Option<bool>) -> bool {
    verdict == Some(true)
}

/// Whether `secret` is the secret that `hashed` was made from, as far as
/// bcrypt can tell.
pub open spec fn verifies(secret: Seq<char>, hashed: Seq<char>) -> bool {
    accepts(bcrypt_verdict(secret, hashed))
}

/// Turns the backend's verdict into the decision: a mismatch and an unreadable
/// hash are both a plain `false`.
pub fn verdict_accepts(verdict: Option<bool>) -> (ok: bool)
    ensures
        ok == accepts(verdict),
{
    match verdict {
        Some(matched) => matched,
        None => false,
    }
}

/// Hashes `secret` with a fresh random salt. The hash that comes back
/// verifies against `secret`.
pub fn hash(secret: &str) -> (res: Result<String, HashingError>)
    ensures
        res matches Ok(hashed) ==> verifies(secret@, hashed@),
{
    let produced = match bcrypt_hash(secret) {
        Ok(hashed) => Some(hashed),
        Err(_) => None,
    };
    hash_or_error(produced)
}

/// Turns what the backend produced into the result of hashing: the hash as it
/// came, or `HashingError` where none came. Nothing ever stands in for a hash
/// that the backend did not produce.
pub fn hash_or_error(produced: Option<String>) -> (res: Result<String, HashingError>)
    ensures
        match produced {
            Some(hashed) => res == Ok::<String, HashingError>(hashed),
            None => res == Err::<String, HashingError>(HashingError),
        },
{
    match produced {
        Some(hashed) => Ok(hashed),
        None => Err(HashingError),
    }
}

/// Checks `secret` against a stored hash. Returns `false`, never an error,
/// when they do not match or when the stored hash is malformed.
pub fn verify(secret: &str, hashed: &str) -> (ok: bool)
    ensures
        ok == verifies(secret@, hashed@),
{
    let verdict = match bcrypt_verify(secret, hashed) {
        Ok(matched) => Some(matched),
        Err(_) => None,
    };
    verdict_accepts(verdict)
}

} // verus!
