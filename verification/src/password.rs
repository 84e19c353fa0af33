//! One-way password hashing and verification. Hashes are self-describing
//! salted strings; verification degrades to `false` on empty or malformed
//! stored hashes instead of raising.

use vstd::prelude::*;

verus! {

/// Whether the memory-hard verification accepts `password` against the
/// self-describing stored string `stored`. A string that does not parse as a
/// hash accepts nothing.
pub uninterp spec fn argon_matches(password: Seq<char>, stored: Seq<char>) -> bool;

/// A stored hash accepts a password: the hash is non-empty and the
/// memory-hard verification succeeds on it. An empty stored hash means
/// "cannot authenticate", never "matches the empty password".
pub open spec fn password_accepted(password: Seq<char>, stored: Seq<char>) -> bool {
    stored.len() > 0 && argon_matches(password, stored)
}

/// Relies on argon2::Argon2::hash_password with a fresh salt of the
/// recommended length drawn from rand's cryptographically secure generator:
/// the returned PHC-encoded string starts with the `'$'` sentinel and
/// verifies against the hashed password. The algorithm takes passwords of
/// under four gibibytes only; a character encodes to at most four bytes, so
/// the bound on characters keeps every admitted input inside that limit.
/// Entropy-source exhaustion is unrecoverable and stops the process.
#[verifier::external_body]
pub(crate) fn argon2_hash(password: &str) -> (r: String)
    requires
        password@.len() < 0x4000_0000,
    ensures
        r@.len() > 0,
        r@[0] == '$',
        argon_matches(password@, r@),
{
    let arg2 = argon2::Argon2::default();
    let mut salt_bytes = [0u8; argon2::password_hash::Salt::RECOMMENDED_LENGTH];
    rand::RngCore::fill_bytes(&mut rand::rng(), &mut salt_bytes);
    let salt = argon2::password_hash::SaltString::encode_b64(&salt_bytes).expect("salt failed");
    argon2::PasswordHasher::hash_password(&arg2, password.as_bytes(), salt.as_salt())
        .expect("hash failed")
        .to_string()
}

/// Relies on argon2::Argon2::verify_password and PasswordHash::new: whether a
/// password matches a PHC-encoded hash depends on the two strings alone, a
/// string that does not parse as a hash matches nothing, and parsing demands
/// the leading `'$'` of the PHC format.
#[verifier::external_body]
pub(crate) fn argon2_verify(password: &str, stored: &str) -> (r: bool)
    ensures
        r == argon_matches(password@, stored@),
        stored@.len() > 0 && stored@[0] != '$' ==> r == false,
{
    let arg2 = argon2::Argon2::default();
    match argon2::PasswordHash::new(stored) {
        Ok(parsed) => argon2::PasswordVerifier::verify_password(
            &arg2,
            password.as_bytes(),
            &parsed,
        ).is_ok(),
        Err(_) => false,
    }
}

/// Law: a freshly hashed password verifies. Hashing yields a non-empty
/// matching hash, and that is exactly what acceptance checks.
pub proof fn lemma_hash_then_verify(password: Seq<char>, hash: Seq<char>)
    requires
        hash.len() > 0,
        argon_matches(password, hash),
    ensures
        password_accepted(password, hash),
{
}

/// Law: the empty stored hash accepts no password.
pub proof fn lemma_empty_hash_rejects(password: Seq<char>)
    ensures
        !password_accepted(password, Seq::<char>::empty()),
{
}

} // verus!
