//! Password hashing: deriving a salted, self-describing encoded hash from a
//! plaintext password, verifying a password against a stored encoded hash,
//! and generating fresh alphanumeric salts.

use vstd::prelude::*;
use rand::Rng;

verus! {

/// The encoded hash that Argon2 (with its default configuration) derives from
/// a password and a salt. Deterministic: the same password and salt always
/// yield the same encoded string.
pub uninterp spec fn hash_of(password: Seq<char>, salt: Seq<char>) -> Seq<char>;

/// Whether the Argon2 verifier accepts `password` against the self-describing
/// `encoded` hash string; false when `encoded` is malformed.
pub uninterp spec fn verifies(encoded: Seq<char>, password: Seq<char>) -> bool;

/// Passwords the hasher accepts: the UTF-8 encoding must stay within the
/// hasher's 32-bit length field, so cap the character count at a quarter of it.
pub open spec fn valid_password(password: Seq<char>) -> bool {
    password.len() <= 0x3fff_ffff
}

/// Salts the hasher accepts: at least 8 bytes, and within the same length cap
/// as passwords. Every character is at least one byte, so 8 characters suffice.
pub open spec fn valid_salt(salt: Seq<char>) -> bool {
    8 <= salt.len() <= 0x3fff_ffff
}

pub open spec fn is_alphanumeric_char(c: char) -> bool {
    ('a' <= c && c <= 'z') || ('A' <= c && c <= 'Z') || ('0' <= c && c <= '9')
}

/// Every character drawn from the alphanumeric alphabet.
pub open spec fn is_alphanumeric_seq(s: Seq<char>) -> bool {
    forall|i: int| 0 <= i < s.len() ==> is_alphanumeric_char(#[trigger] s[i])
}

/// Relies on argon2::hash_encoded (rust-argon2, default configuration): the
/// encoded result is a deterministic function of password and salt, and
/// argon2::verify_encoded accepts the password it was derived from.
#[verifier::external_body]
pub(crate) fn hash_password(password: &str, salt: &str) -> (r: String)
    requires
        valid_password(password@),
        valid_salt(salt@),
    ensures
        r@ == hash_of(password@, salt@),
        verifies(r@, password@),
{
    let config = argon2::Config::default();
    argon2::hash_encoded(password.as_bytes(), salt.as_bytes(), &config).unwrap()
}

/// Relies on argon2::verify_encoded: re-derives the hash with the parameters
/// and salt embedded in `encoded` and compares in constant time. A malformed
/// `encoded` yields an error, mapped here to false rather than a panic.
#[verifier::external_body]
pub(crate) fn verify_password(encoded: &str, password: &str) -> (r: bool)
    ensures
        r == verifies(encoded@, password@),
{
    argon2::verify_encoded(encoded, password.as_bytes()).unwrap_or(false)
}

/// Relies on rand's Alphanumeric distribution: 20 characters drawn uniformly
/// from a-z, A-Z and 0-9 by a cryptographically secure generator.
#[verifier::external_body]
pub fn generate_salt() -> (r: String)
    ensures
        r@.len() == 20,
        is_alphanumeric_seq(r@),
{
    rand::thread_rng()
        .sample_iter(&rand::distributions::Alphanumeric)
        .take(20)
        .map(char::from)
        .collect()
}

/// Hashing a password with an admissible salt and then verifying the same
/// password against the resulting encoded hash always succeeds.
pub fn hash_roundtrip_verifies(password: &str, salt: &str) -> (r: bool)
    requires
        valid_password(password@),
        valid_salt(salt@),
    ensures
        r,
        r == verifies(hash_of(password@, salt@), password@),
{
    let encoded = hash_password(password, salt);
    verify_password(&encoded, password)
}

} // verus!
