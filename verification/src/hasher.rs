//! Salted password hashing with Argon2, and verification of a password
//! against a stored encoded hash.
use crate::error::AuthError;
use crate::models::Account;
use rand::Rng;
use vstd::prelude::*;

verus! {

/// The number of random salt bytes drawn for each new hash.
pub const SALT_LEN: usize = 32;

/// A well-formed encoded hash that no account owns; a login for an unknown
/// email is verified against it so that it costs what a failed login costs.
pub const THROWAWAY_HASH: &'static str =
    "$argon2i$v=19$m=4096,t=3,p=1$c29tZXNhbHQ$iWh06vD8Fy27wf9npn6FXWiCX4K6pW6Ue1Bnzz07Z8A";

#[verifier::external_type_specification]
#[verifier::external_body]
pub struct ExArgon2Error(argon2::Error);

/// The encoded Argon2 hash of a password under a salt with the default
/// parameters, or `None` where the hasher refuses the inputs.
pub uninterp spec fn argon2_encoded(password: Seq<char>, salt: Seq<u8>) -> Option<Seq<char>>;

/// What Argon2 verification of a password against an encoded hash gives:
/// whether the digests agree, or `None` where the encoded hash cannot be used.
pub uninterp spec fn argon2_verdict(encoded: Seq<char>, password: Seq<char>) -> Option<bool>;

/// A password opens an encoded hash when verification accepts it. A hash that
/// was derived from the same password, under whatever salt, is always accepted.
pub open spec fn password_matches(encoded: Seq<char>, password: Seq<char>) -> bool {
    argon2_verdict(encoded, password) == Some(true) || exists|salt: Seq<u8>|
        #[trigger] argon2_encoded(password, salt) == Some(encoded)
}

/// Calls `argon2::hash_encoded` on the password's UTF-8 bytes and the salt,
/// with `argon2::Config::default()`. Trusted: the call is a function of the
/// password and the salt alone, and its outcome is what `argon2_encoded` names.
#[verifier::external_body]
fn argon2_hash_encoded(password: &str, salt: &[u8]) -> (r: Result<String, argon2::Error>)
    ensures
        match r {
            Ok(h) => argon2_encoded(password@, salt@) == Some(h@),
            Err(_) => argon2_encoded(password@, salt@) is None,
        },
{
    argon2::hash_encoded(password.as_bytes(), salt, &argon2::Config::default())
}

/// Calls `argon2::verify_encoded` on the encoded hash and the password's UTF-8
/// bytes. Trusted: the outcome is what `argon2_verdict` names, and, as the
/// hasher documents, a password is accepted by every hash encoded from it.
#[verifier::external_body]
fn argon2_verify_encoded(encoded: &str, password: &str) -> (r: Result<bool, argon2::Error>)
    ensures
        match r {
            Ok(accepted) => argon2_verdict(encoded@, password@) == Some(accepted)
                && accepted == password_matches(encoded@, password@),
            Err(_) => argon2_verdict(encoded@, password@) is None
                && !password_matches(encoded@, password@),
        },
{
    argon2::verify_encoded(encoded, password.as_bytes())
}

/// Draws salt bytes from `rand::thread_rng()`. Trusted, and nothing is claimed
/// of the bytes beyond their number.
#[verifier::external_body]
pub(crate) fn random_salt() -> (salt: [u8; 32]) {
    rand::thread_rng().gen()
}

/// Hashes a password under the given salt. The result is the encoded hash that
/// Argon2 derives from exactly these two inputs; a refusal by the hasher is an
/// `Internal` failure.
pub fn hash_with_salt(password: &String, salt: &[u8]) -> (r: Result<String, AuthError>)
    ensures
        match argon2_encoded(password@, salt@) {
            Some(h) => r matches Ok(encoded) && encoded@ == h,
            None => r == Err::<String, AuthError>(AuthError::Internal),
        },
{
    match argon2_hash_encoded(password.as_str(), salt) {
        Ok(encoded) => Ok(encoded),
        Err(_) => Err(AuthError::Internal),
    }
}

impl Account {
    /// Hashes a password under a fresh random salt of `SALT_LEN` bytes.
    pub fn hash_password(password: &String) -> (r: Result<String, AuthError>)
        ensures
            match r {
                Ok(encoded) => exists|salt: Seq<u8>|
                    salt.len() == SALT_LEN && #[trigger] argon2_encoded(password@, salt) == Some(
                        encoded@,
                    ),
                Err(e) => e == AuthError::Internal,
            },
            r matches Ok(encoded) ==> password_matches(encoded@, password@),
    {
        let salt = random_salt();
        hash_with_salt(password, salt.as_slice())
    }

    /// Decides whether a password opens an encoded hash. `Ok(true)` exactly when
    /// it does; an encoded hash that cannot be parsed is an `Internal` failure,
    /// never an acceptance.
    pub fn check_password(password: &String, hash: &String) -> (r: Result<bool, AuthError>)
        ensures
            match argon2_verdict(hash@, password@) {
                Some(accepted) => r == Ok::<bool, AuthError>(accepted),
                None => r == Err::<bool, AuthError>(AuthError::Internal),
            },
            r == Ok::<bool, AuthError>(true) <==> password_matches(hash@, password@),
    {
        match argon2_verify_encoded(hash.as_str(), password.as_str()) {
            Ok(accepted) => Ok(accepted),
            Err(_) => Err(AuthError::Internal),
        }
    }
}

/// Spends the time of one verification without learning anything: checks the
/// password against `THROWAWAY_HASH` and discards the outcome.
pub(crate) fn burn_verification(password: &String) {
    let _ = argon2_verify_encoded(THROWAWAY_HASH, password.as_str());
}

} // verus!
