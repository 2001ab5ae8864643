//! Passwords: how one is hashed, and how one is held against a hash.

use vstd::prelude::*;
use crate::json::digit;

verus! {

/// The cost at which passwords are hashed.
pub const HASH_COST: u32 = 14;

/// `bcrypt::BcryptError`, of which nothing is read but that it occurred.
#[verifier::external_type_specification]
#[verifier::external_body]
pub struct ExBcryptError(bcrypt::BcryptError);

/// Whether `password` is the one that `hash` was made of; nothing where
/// `hash` is no bcrypt hash.
pub uninterp spec fn password_matches(password: Seq<char>, hash: Seq<char>) -> Option<bool>;

/// `bcrypt::verify`. The contract claims that the verdict depends on the
/// password and the hash alone.
#[verifier::external_body]
pub(crate) fn verify(password: &str, hash: &str) -> (verdict: Option<bool>)
    ensures
        verdict == password_matches(password@, hash@),
{
    bcrypt::verify(password, hash).ok()
}

/// How a hash made at `cost` begins: the version, and the cost in two
/// digits.
pub open spec fn hash_prefix(cost: u32) -> Seq<char> {
    seq!['$', '2', 'b', '$', digit((cost / 10) as nat), digit((cost % 10) as nat), '$']
}

/// What holds of a hash of `password` made at `cost`: it begins with the
/// version and the cost, and the password passes against it.
pub open spec fn hashes(text: Seq<char>, password: Seq<char>, cost: u32) -> bool {
    text.take(7) == hash_prefix(cost) && password_matches(password, text) == Some(true)
}

/// `bcrypt::hash`. The hash is salted at random, and whether one comes back
/// lies with the cost and the machine's randomness, so the contract claims
/// only what holds of every hash that does come back: it begins with the
/// version and the two digits of the cost, and `bcrypt::verify` lets the
/// password that it was made of pass against it.
#[verifier::external_body]
pub(crate) fn hash(password: &str, cost: u32) -> (hashed: Result<String, bcrypt::BcryptError>)
    ensures
        hashed matches Ok(text) ==> hashes(text@, password@, cost),
{
    bcrypt::hash(password, cost)
}

/// The password could not be hashed.
#[derive(Clone, Copy, Debug, PartialEq, Eq, Structural)]
pub struct HashError {}

/// Hashes a password at the cost that this library hashes at. A hash that
/// comes back is one of that cost that the password passes against.
pub(crate) fn hash_password(password: &str) -> (hashed: Result<String, HashError>)
    ensures
        hashed matches Ok(text) ==> hashes(text@, password@, HASH_COST),
{
    hash_outcome(hash(password, HASH_COST))
}

/// What the hashing of a password ends with, given what the hashing came
/// to: the hash as it came, or no more than that there is none.
pub fn hash_outcome(hashed: Result<String, bcrypt::BcryptError>) -> (outcome: Result<
    String,
    HashError,
>)
    ensures
        outcome == match hashed {
            Ok(text) => Ok::<String, HashError>(text),
            Err(_) => Err(HashError {  }),
        },
{
    match hashed {
        Ok(text) => Ok(text),
        Err(_) => Err(HashError {  }),
    }
}

/// Whether a password passes, given the verdict on it: a hash that is none
/// lets no password pass.
pub fn passes(verdict: Option<bool>) -> (pass: bool)
    ensures
        pass == (verdict == Some(true)),
{
    match verdict {
        Some(pass) => pass,
        None => false,
    }
}

/// Whether `password` is the one that `hash` was made of.
pub fn verify_password(password: &str, hash: &str) -> (pass: bool)
    ensures
        pass == (password_matches(password@, hash@) == Some(true)),
{
    passes(verify(password, hash))
}

} // verus!
