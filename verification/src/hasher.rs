//! The password hasher: a salted, adaptive-cost one-way hash and its check.

use vstd::prelude::*;
use crate::error::AuthError;

verus! {

/// The work factor used unless another is asked for.
pub const DEFAULT_COST: u32 = 12;

/// The least work factor that the hash function takes.
pub const MIN_COST: u32 = 4;

/// The greatest work factor that the hash function takes.
pub const MAX_COST: u32 = 31;

/// Number of characters of a hash artifact.
pub const ARTIFACT_LEN: usize = 60;

/// What checking `plaintext` against `hash_artifact` yields: `Some(true)`
/// where they match, `Some(false)` where they do not, `None` where the
/// artifact is not a hash that can be checked.
pub uninterp spec fn bcrypt_verdict(plaintext: Seq<char>, hash_artifact: Seq<char>) -> Option<bool>;

/// The value of a decimal digit character.
pub open spec fn digit_value(c: char) -> int {
    c as int - '0' as int
}

/// The work factor that a hash artifact was made at: the two decimal digits
/// that follow its version, at positions 4 and 5.
pub open spec fn artifact_cost(hash_artifact: Seq<char>) -> int {
    10 * digit_value(hash_artifact[4]) + digit_value(hash_artifact[5])
}

/// Whether `hash_artifact` is a well-formed hash of `plaintext`: it has the
/// 60 characters of an artifact and the check of `plaintext` against it
/// succeeds.
pub open spec fn password_matches(plaintext: Seq<char>, hash_artifact: Seq<char>) -> bool {
    hash_artifact.len() == ARTIFACT_LEN && bcrypt_verdict(plaintext, hash_artifact) == Some(true)
}

/// Calls `bcrypt::hash`, which salts from the system's randomness. Nothing is
/// claimed of which hash comes back, nor that one does at a work factor from
/// 4 to 31; outside that range the function refuses. A hash that does come
/// back is written as `$2b$`, the work factor in two digits, `$` and 53
/// characters of salt and digest, 60 in all, and it checks against the
/// password it was made from, as `bcrypt::verify` recomputes it from the salt
/// and work factor it carries.
#[verifier::external_body]
fn bcrypt_hash(plaintext: &str, cost: u32) -> (hashed: Option<String>)
    ensures
        !(MIN_COST <= cost <= MAX_COST) ==> hashed is None,
        hashed matches Some(h) ==> bcrypt_verdict(plaintext@, h@) == Some(true) && h@.len()
            == ARTIFACT_LEN && artifact_cost(h@) == cost,
{
    bcrypt::hash(plaintext, cost).ok()
}

/// Calls `bcrypt::verify`. Its answer depends on the two texts alone, so it
/// carries a name; an error of the outside function is `None`. The function
/// refuses every artifact that does not have 60 characters before it
/// computes anything.
#[verifier::external_body]
fn bcrypt_verify(plaintext: &str, hash_artifact: &str) -> (verdict: Option<bool>)
    ensures
        verdict == bcrypt_verdict(plaintext@, hash_artifact@),
        hash_artifact@.len() != ARTIFACT_LEN ==> verdict is None,
{
    bcrypt::verify(plaintext, hash_artifact).ok()
}

/// What the hasher reports for an outcome of the hashing function: the
/// artifact where there is one, `HashingFailed` where there is none.
pub fn hashing_outcome(hashed: Option<String>) -> (outcome: Result<String, AuthError>)
    ensures
        match hashed {
            Some(h) => outcome == Ok::<String, AuthError>(h),
            None => outcome == Err::<String, AuthError>(AuthError::HashingFailed),
        },
{
    match hashed {
        Some(h) => Ok(h),
        None => Err(AuthError::HashingFailed),
    }
}

/// What the hasher reports for a verdict of the checking function: a match
/// only where the check ran and succeeded.
pub fn verdict_outcome(verdict: Option<bool>) -> (matches: bool)
    ensures
        matches == (verdict == Some(true)),
{
    match verdict {
        Some(b) => b,
        None => false,
    }
}

/// Hashes passwords at a chosen work factor.
#[derive(Clone, Copy, Debug)]
pub struct PasswordHasher {
    pub cost: u32,
}

impl PasswordHasher {
    /// A hasher at the default work factor.
    pub fn new() -> (hasher: PasswordHasher)
        ensures
            hasher.cost == DEFAULT_COST,
    {
        PasswordHasher { cost: DEFAULT_COST }
    }

    /// A hasher at the work factor `cost`.
    pub fn with_cost(cost: u32) -> (hasher: PasswordHasher)
        ensures
            hasher.cost == cost,
    {
        PasswordHasher { cost }
    }

    /// Hashes `plaintext` with a fresh salt at this hasher's work factor and
    /// at no other: the artifact returned carries that work factor, has 60
    /// characters and checks against `plaintext`. A work factor outside 4 to
    /// 31 always fails; the only failure is `HashingFailed`. Of a password
    /// longer than 72 bytes only the first 72 take part.
    pub fn hash(&self, plaintext: &str) -> (outcome: Result<String, AuthError>)
        ensures
            !(MIN_COST <= self.cost <= MAX_COST) ==> outcome is Err,
            match outcome {
                Ok(h) => password_matches(plaintext@, h@) && h@.len() == ARTIFACT_LEN
                    && artifact_cost(h@) == self.cost,
                Err(e) => e == AuthError::HashingFailed,
            },
    {
        hashing_outcome(bcrypt_hash(plaintext, self.cost))
    }
}

/// Checks `plaintext` against `hash_artifact`. A malformed artifact is a
/// mismatch, never an error; so is whatever does not have the 60 characters
/// of an artifact, such as a password kept in place of its hash.
pub fn verify_password(plaintext: &str, hash_artifact: &str) -> (matches: bool)
    ensures
        matches == password_matches(plaintext@, hash_artifact@),
        hash_artifact@.len() != ARTIFACT_LEN ==> !matches,
{
    verdict_outcome(bcrypt_verify(plaintext, hash_artifact))
}

} // verus!
