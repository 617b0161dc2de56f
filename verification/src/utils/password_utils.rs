//! Password hashing and verification.
//!
//! Hashing draws a random salt, so two hashes of one password differ; what
//! is promised of every outcome is that the fresh hash verifies against the
//! password it was made from. Verification against a missing stored hash
//! still performs one full hash-and-compare, against a fixed dummy hash, so
//! that every call costs one argon2 computation and the time taken does not
//! reveal whether the account exists.

use vstd::prelude::*;
use argon2::PasswordHasher;
use argon2::PasswordVerifier;

verus! {

/// Whether a password matches a stored PHC hash string, as argon2 decides
/// it; the outcome depends on the two values alone.
pub uninterp spec fn verifies(password: Seq<char>, phc: Seq<char>) -> bool;

/// A hashed password, stored as a PHC string.
#[derive(Debug, Clone)]
pub struct PWHash(String);

impl View for PWHash {
    type V = Seq<char>;

    closed spec fn view(&self) -> Seq<char> {
        self.0@
    }
}

impl PWHash {
    /// Wraps a stored PHC string as a hash, so that credentials kept
    /// outside the library can be reloaded. The string is not parsed here;
    /// [`verify`] answers false for one that argon2 cannot read.
    pub fn new(phc: String) -> (r: PWHash)
        ensures
            r@ == phc@,
    {
        PWHash(phc)
    }

    /// The PHC string of this hash.
    pub fn as_str(&self) -> (r: &str)
        ensures
            r@ == self@,
    {
        self.0.as_str()
    }
}

/// Hashes a password with a salt chosen at random.
///
/// Relies on argon2's `hash_password`: the returned PHC string records the
/// salt and parameters, so the password it was made from verifies against
/// it. argon2 rejects passwords longer than `MAX_PWD_LEN` (2^32 - 1) UTF-8
/// bytes; a character encodes to at most four bytes, so the precondition
/// keeps every admitted input under that byte limit.
#[verifier::external_body]
pub fn hash(password: &str) -> (r: PWHash)
    requires
        password@.len() <= 0x3FFF_FFFF,
    ensures
        verifies(password@, r@),
{
    let salt = argon2::password_hash::SaltString::generate(
        &mut argon2::password_hash::rand_core::OsRng,
    );
    let hashed = argon2::Argon2::default().hash_password(password.as_bytes(), &salt).unwrap();
    PWHash(hashed.to_string())
}

/// Relies on argon2's `verify_password` (after `PasswordHash::new` parses
/// the stored PHC string): it recomputes the hash with the recorded salt
/// and parameters and compares, so acceptance depends on the password and
/// the stored string alone. An overlong or unparseable input yields false,
/// never a panic.
#[verifier::external_body]
fn verify_against(password: &str, stored: &PWHash) -> (r: bool)
    ensures
        r == verifies(password@, stored@),
{
    match argon2::password_hash::PasswordHash::new(stored.0.as_str()) {
        Ok(parsed) => argon2::Argon2::default().verify_password(
            password.as_bytes(),
            &parsed,
        ).is_ok(),
        Err(_) => false,
    }
}

/// The PHC string of the fixed dummy hash: an argon2id hash of the empty
/// password under the default parameters, with a fixed, publicly known
/// salt. It protects no credential; it only gives [`verify`] a stored-hash
/// stand-in of full verification cost.
pub open spec fn empty_password_phc() -> Seq<char> {
    "$argon2id$v=19$m=19456,t=2,p=1$AAECAwQFBgcICQoLDA0ODw$MVSMP3rBIzE7F86FWHKNemRnE6hkgY2O2buZdxt7Gkw"@
}

/// The fixed dummy hash used when no stored hash is given.
fn empty_dummy_hash() -> (r: PWHash)
    ensures
        r@ == empty_password_phc(),
{
    PWHash(
        "$argon2id$v=19$m=19456,t=2,p=1$AAECAwQFBgcICQoLDA0ODw$MVSMP3rBIzE7F86FWHKNemRnE6hkgY2O2buZdxt7Gkw".to_owned(),
    )
}

/// Checks a password against a possibly-absent stored hash.
///
/// When no hash is stored, the password is checked in full against the
/// fixed dummy hash, so that every call performs exactly one argon2
/// computation and the time taken is indistinguishable from the case of a
/// stored hash. Because the dummy is a genuine hash of the empty password,
/// checking the empty password with no stored hash reports a match, as it
/// does against any stored hash of the empty password.
pub fn verify(password: &str, maybe_hash: Option<&PWHash>) -> (r: bool)
    ensures
        maybe_hash is Some ==> r == verifies(password@, maybe_hash->0@),
        maybe_hash is None ==> r == verifies(password@, empty_password_phc()),
{
    match maybe_hash {
        Some(h) => verify_against(password, h),
        None => {
            let dummy = empty_dummy_hash();
            verify_against(password, &dummy)
        },
    }
}

} // verus!
