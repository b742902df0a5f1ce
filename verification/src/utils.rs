//! Password hashing. The key-derivation work itself is done by an outside
//! routine; the library fixes what is handed to it and names its results.

use vstd::prelude::*;
use vstd::string::StringSliceAdditionalSpecFns;

verus! {

/// The encoded hash the key-derivation routine produces for a password,
/// salt and secret key; it is a function of those inputs alone.
pub uninterp spec fn argon2_hash_of(password: Seq<u8>, salt: Seq<u8>, secret: Seq<u8>) -> Seq<
    char,
>;

/// Whether an encoded hash matches a password under a secret key; it is a
/// function of those inputs alone.
pub uninterp spec fn argon2_matches(encoded: Seq<char>, password: Seq<u8>, secret: Seq<u8>) -> bool;

/// The failure type of the key-derivation routine.
#[verifier::external_type_specification]
#[verifier::external_body]
pub struct ExArgon2Error(argon2::Error);

/// Relies on rand::random: a salt drawn fresh for each hash. Nothing is
/// promised of its value.
#[verifier::external_body]
fn random_salt() -> (r: [u8; 32]) {
    rand::random()
}

/// Relies on argon2::hash_encoded (rust-argon2): the encoded hash of the
/// password under the given salt and secret key, computed from those
/// arguments and the crate's fixed default configuration alone.
#[verifier::external_body]
fn argon2_hash_encoded(password: &[u8], salt: &[u8], secret: &[u8]) -> (r: Result<
    String,
    argon2::Error,
>)
    ensures
        r matches Ok(h) ==> h@ == argon2_hash_of(password@, salt@, secret@),
{
    let config = argon2::Config { secret, ..argon2::Config::original() };
    argon2::hash_encoded(password, salt, &config)
}

/// Relies on argon2::verify_encoded_ext (rust-argon2): whether the encoded
/// hash matches the password under the secret key, computed from those
/// arguments alone.
#[verifier::external_body]
fn argon2_verify(encoded: &str, password: &[u8], secret: &[u8]) -> (r: Result<
    bool,
    argon2::Error,
>)
    ensures
        r matches Ok(b) ==> b == argon2_matches(encoded@, password@, secret@),
{
    argon2::verify_encoded_ext(encoded, password, secret, &[])
}

/// Hash a password under the service's secret key, salted with a fresh
/// 32-byte random salt.
pub fn hash_password(password: &str, secret: &[u8]) -> (r: Result<String, argon2::Error>)
    ensures
        r matches Ok(h) ==> exists|salt: Seq<u8>|
            salt.len() == 32 && h@ == argon2_hash_of(password.spec_bytes(), salt, secret@),
{
    let salt = random_salt();
    let ghost salt_seq = salt@;
    let r = argon2_hash_encoded(password.as_bytes(), salt.as_slice(), secret);
    proof {
        if r is Ok {
            assert(salt_seq.len() == 32 && r->Ok_0@ == argon2_hash_of(
                password.spec_bytes(),
                salt_seq,
                secret@,
            ));
        }
    }
    r
}

/// Check a password against a stored encoded hash under the secret key.
pub fn verify_password(password: &str, hash: &str, secret: &[u8]) -> (r: Result<
    bool,
    argon2::Error,
>)
    ensures
        r matches Ok(b) ==> b == argon2_matches(hash@, password.spec_bytes(), secret@),
{
    argon2_verify(hash, password.as_bytes(), secret)
}

} // verus!
