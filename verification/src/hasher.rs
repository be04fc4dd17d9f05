//! One-way salted password hashing and constant-time verification.
//!
//! The hash itself is done by the `bcrypt` crate; the library speaks of its
//! outcome through the name [`bcrypt_matches`].

use vstd::prelude::*;

verus! {

/// Whether `bcrypt::verify` accepts `password` against the stored string
/// `hashed`. The salt is embedded in `hashed`, so the outcome is a function
/// of the two arguments alone.
pub uninterp spec fn bcrypt_matches(password: Seq<char>, hashed: Seq<char>) -> bool;

/// Relies on bcrypt::verify: it parses the stored hash string, recomputes
/// the hash of `password` with the cost and salt embedded there, and
/// compares in constant time; the outcome depends on the two arguments
/// alone. A malformed stored string, a mismatch, and any internal error all
/// come back as `false`.
#[verifier::external_body]
pub fn verify_password(password: &str, hashed: &str) -> (r: bool)
    ensures
        r == bcrypt_matches(password@, hashed@),
{
    bcrypt::verify(password, hashed).unwrap_or(false)
}

/// Relies on bcrypt::hash with the crate's default cost: it draws a fresh
/// random salt, so no two calls agree, but every string it returns is the
/// 60-character, `$`-led hash format that bcrypt::verify accepts for
/// `password`. Aborts if the operating system's randomness source fails: a
/// fatal environment error, never a silent fallback.
#[verifier::external_body]
pub fn hash_password(password: &str) -> (r: String)
    ensures
        bcrypt_matches(password@, r@),
        r@.len() == 60,
        r@[0] == '$',
{
    bcrypt::hash(password, bcrypt::DEFAULT_COST).expect("password hashing failed")
}

} // verus!
