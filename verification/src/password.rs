//! Password hashing behind the `Password` capability. The scheme in use
//! is argon2 with its default parameters; its computations are named, not
//! restated: what this module proves is how salts, hashes and faults are
//! routed, not the cipher arithmetic itself.

use vstd::prelude::*;

use argon2::{PasswordHasher, PasswordVerifier};

use crate::errors::AuthError;

verus! {

/// The password-hashing capability the account services depend on.
pub trait Password {
    /// Hash a plain password into a self-describing hash string.
    fn hash(&self, password: &str) -> Result<String, AuthError>;

    /// Check a plain password against a hash string produced by `hash`.
    fn verify(&self, password: &str, password_hash: &str) -> Result<bool, AuthError>;
}

/// The PHC string argon2 computes, under its default parameters, for a
/// password and a B64 salt: a function of the two arguments alone.
pub uninterp spec fn argon2_phc_of(password: Seq<char>, salt: Seq<char>) -> Seq<char>;

/// Whether argon2 accepts `password` against the PHC string `phc`, using
/// the parameters the string itself carries: a function of the arguments
/// alone.
pub uninterp spec fn argon2_matches(password: Seq<char>, phc: Seq<char>) -> bool;

/// Whether `phc` parses as a PHC hash string.
pub uninterp spec fn argon2_phc_parses(phc: Seq<char>) -> bool;

/// Relies on `SaltString::generate` over the operating system's random
/// source: a fresh B64-encoded salt of the recommended length. Its value
/// depends on that source, so nothing is promised of it.
#[verifier::external_body]
fn generate_salt() -> (r: String)
{
    argon2::password_hash::SaltString::generate(
        &mut argon2::password_hash::rand_core::OsRng,
    ).as_str().to_string()
}

/// Relies on `Salt::from_b64` and `Argon2::hash_password` with default
/// parameters: the hash is a function of password and salt alone; a hash
/// fresh from this call parses as a PHC string and verifies against its
/// own password, which is the crate's documented round trip. A salt that
/// does not parse, or a hashing fault, comes back as the crate's error
/// message.
#[verifier::external_body]
fn argon2_hash_password(password: &str, salt: &str) -> (r: Result<String, String>)
    ensures
        r matches Ok(h) ==> h@ == argon2_phc_of(password@, salt@) && argon2_phc_parses(h@)
            && argon2_matches(password@, h@),
{
    match argon2::password_hash::Salt::from_b64(salt) {
        Ok(s) => match argon2::Argon2::default().hash_password(password.as_bytes(), s) {
            Ok(h) => Ok(h.to_string()),
            Err(e) => Err(e.to_string()),
        },
        Err(e) => Err(e.to_string()),
    }
}

/// Relies on `PasswordHash::new` and `Argon2::verify_password`: whether
/// the password matches is a function of password and PHC string alone —
/// the parameters come from the string itself; the failure case is
/// exactly a string that does not parse as a PHC hash.
#[verifier::external_body]
fn argon2_verify_password(password: &str, phc: &str) -> (r: Result<bool, String>)
    ensures
        r is Ok <==> argon2_phc_parses(phc@),
        r matches Ok(b) ==> b == argon2_matches(password@, phc@),
{
    match argon2::password_hash::PasswordHash::new(phc) {
        Ok(parsed) => Ok(
            argon2::Argon2::default().verify_password(password.as_bytes(), &parsed).is_ok(),
        ),
        Err(e) => Err(e.to_string()),
    }
}

/// Argon2 with its default parameters, behind the `Password` capability.
#[derive(Clone, Copy, Debug)]
pub struct Argon2Hash;

impl Argon2Hash {
    /// A fresh hasher; argon2's default parameters carry no state.
    pub fn new() -> (r: Self) {
        Argon2Hash
    }

    /// Hash `password` under a fresh random salt. Whatever salt the random
    /// source produced, a returned hash verifies against `password`; a
    /// fault of the hashing backend carries its message.
    pub fn hash_password(&self, password: &str) -> (r: Result<String, AuthError>)
        ensures
            r matches Ok(h) ==> argon2_matches(password@, h@) && argon2_phc_parses(h@)
                && (exists|salt: Seq<char>| h@ == argon2_phc_of(password@, salt)),
            r matches Err(e) ==> e is PasswordHashError,
    {
        let salt = generate_salt();
        match argon2_hash_password(password, salt.as_str()) {
            Ok(h) => {
                proof {
                    assert(h@ == argon2_phc_of(password@, salt@));
                }
                Ok(h)
            },
            Err(e) => Err(AuthError::PasswordHashError(e)),
        }
    }

    /// Check `password` against `password_hash`. The answer is exactly
    /// argon2's; a hash string that does not parse carries its message.
    pub fn verify_password(&self, password: &str, password_hash: &str) -> (r: Result<
        bool,
        AuthError,
    >)
        ensures
            r matches Ok(b) ==> argon2_phc_parses(password_hash@) && b == argon2_matches(
                password@,
                password_hash@,
            ),
            r matches Err(e) ==> !argon2_phc_parses(password_hash@) && e is PasswordHashError,
    {
        match argon2_verify_password(password, password_hash) {
            Ok(b) => Ok(b),
            Err(e) => Err(AuthError::PasswordHashError(e)),
        }
    }
}

impl Password for Argon2Hash {
    fn hash(&self, password: &str) -> Result<String, AuthError> {
        self.hash_password(password)
    }

    fn verify(&self, password: &str, password_hash: &str) -> Result<bool, AuthError> {
        self.verify_password(password, password_hash)
    }
}

} // verus!
