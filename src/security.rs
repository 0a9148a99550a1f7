use argon2::password_hash::{PasswordHash, PasswordHasher, PasswordVerifier, SaltString};
use argon2::Argon2;
use vstd::prelude::*;

verus! {

/// Whether argon2 takes the text as a salt: B64 that `SaltString::from_b64`
/// reads and that decodes to at least 8 bytes.
pub uninterp spec fn salt_accepted(salt: Seq<char>) -> bool;

/// The PHC string that `Argon2::default()` writes for `pin` under `salt`.
pub uninterp spec fn argon2_phc(pin: Seq<char>, salt: Seq<char>) -> Seq<char>;

/// Whether argon2 reads the text as a PHC hash string.
pub uninterp spec fn phc_parses(hash: Seq<char>) -> bool;

/// The message of the error that argon2 reports for a text that is not a PHC
/// hash string.
pub uninterp spec fn phc_error_text(hash: Seq<char>) -> Seq<char>;

/// Whether argon2, recomputing the hash that a PHC string describes over
/// `pin`, finds the digest it holds.
pub uninterp spec fn argon2_accepts(pin: Seq<char>, hash: Seq<char>) -> bool;

/// Relies on `SaltString::generate` over `rand::thread_rng()`: a fresh random
/// salt of 16 bytes in B64, which argon2 accepts.
#[verifier::external_body]
fn fresh_salt() -> (r: String)
    ensures
        salt_accepted(r@),
{
    SaltString::generate(rand::thread_rng()).as_str().to_string()
}

/// Relies on `SaltString::from_b64` and `PasswordHasher::hash_password` of
/// `Argon2::default()`: the PHC string is a function of PIN and salt; it
/// parses again, and `verify_password` recomputes the same digest from the
/// parameters and salt written in it, so it accepts the same PIN. Hashing
/// fails only on a salt it does not accept or a PIN of more than `u32::MAX`
/// bytes.
#[verifier::external_body]
fn argon2_hash(pin: &str, salt: &str) -> (r: Result<String, String>)
    ensures
        r is Ok ==> r->Ok_0@ == argon2_phc(pin@, salt@),
        r is Ok ==> phc_parses(r->Ok_0@) && argon2_accepts(pin@, r->Ok_0@),
        salt_accepted(salt@) && pin@.len() <= 0x3fff_ffff ==> r is Ok,
{
    SaltString::from_b64(salt).and_then(
        |s| Argon2::default().hash_password(pin.as_bytes(), &s).map(|h| h.to_string()),
    ).map_err(|e| e.to_string())
}

/// Relies on `PasswordHash::new`: why the text is not a PHC hash string, or
/// nothing when it is one.
#[verifier::external_body]
fn phc_parse_error(hash: &str) -> (r: Option<String>)
    ensures
        r is None <==> phc_parses(hash@),
        r is Some ==> r->0@ == phc_error_text(hash@),
{
    PasswordHash::new(hash).err().map(|e| e.to_string())
}

/// Relies on `PasswordVerifier::verify_password` of `Argon2::default()` over
/// the hash that `PasswordHash::new` reads from the text.
#[verifier::external_body]
fn argon2_verify(pin: &str, hash: &str) -> (r: bool)
    requires
        phc_parses(hash@),
    ensures
        r == argon2_accepts(pin@, hash@),
{
    match PasswordHash::new(hash) {
        Ok(parsed) => Argon2::default().verify_password(pin.as_bytes(), &parsed).is_ok(),
        Err(_) => false,
    }
}

/// What checking `pin` against a stored hash reports: an error when the hash
/// does not parse, else whether it matches.
pub open spec fn verify_outcome(pin: Seq<char>, hash: Seq<char>) -> Option<bool> {
    if phc_parses(hash) {
        Some(argon2_accepts(pin, hash))
    } else {
        None
    }
}

/// Salted argon2 hashing of a short PIN.
pub struct PinManager;

impl PinManager {
    /// Hashes `pin` under the given B64 salt into a self-describing PHC
    /// string, which then verifies against `pin`. It succeeds for any salt
    /// that argon2 accepts and any PIN of at most 2^30 - 1 characters.
    pub fn hash_pin_with_salt(pin: &str, salt: &str) -> (r: Result<String, String>)
        ensures
            r is Ok ==> r->Ok_0@ == argon2_phc(pin@, salt@),
            r is Ok ==> verify_outcome(pin@, r->Ok_0@) == Some(true),
            salt_accepted(salt@) && pin@.len() <= 0x3fff_ffff ==> r is Ok,
    {
        argon2_hash(pin, salt)
    }

    /// Hashes `pin` with a fresh random salt; it succeeds for any PIN of at
    /// most 2^30 - 1 characters.
    pub fn hash_pin(pin: &str) -> (r: Result<String, String>)
        ensures
            pin@.len() <= 0x3fff_ffff ==> r is Ok,
            r is Ok ==> exists|salt: Seq<char>|
                salt_accepted(salt) && r->Ok_0@ == #[trigger] argon2_phc(pin@, salt),
            r is Ok ==> verify_outcome(pin@, r->Ok_0@) == Some(true),
    {
        let salt = fresh_salt();
        Self::hash_pin_with_salt(pin, salt.as_str())
    }

    /// Checks `pin` against a stored hash: `Err` exactly when the hash does
    /// not parse, otherwise whether it matches.
    pub fn verify_pin(pin: &str, hash: &str) -> (r: Result<bool, String>)
        ensures
            r is Err <==> verify_outcome(pin@, hash@) is None,
            r is Err ==> r->Err_0@ == phc_error_text(hash@),
            r is Ok ==> verify_outcome(pin@, hash@) == Some(r->Ok_0),
    {
        match phc_parse_error(hash) {
            Some(e) => Err(e),
            None => Ok(argon2_verify(pin, hash)),
        }
    }
}

/// A hash issued for a PIN verifies that PIN.
pub proof fn lemma_issued_hash_verifies(pin: Seq<char>, hash: Seq<char>)
    requires
        phc_parses(hash) && argon2_accepts(pin, hash),
    ensures
        verify_outcome(pin, hash) == Some(true),
{
}

} // verus!
