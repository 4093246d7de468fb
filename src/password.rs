use vstd::prelude::*;

use crate::error::AuthError;

verus! {

/// What argon2's verification says of `password` against the PHC string `phc`:
/// `None` when `phc` does not parse as a PHC string.
pub uninterp spec fn argon2_check(password: Seq<char>, phc: Seq<char>) -> Option<bool>;

/// Whether `c` belongs to the standard Base64 alphabet.
pub open spec fn b64_char(c: char) -> bool {
    ('A' <= c <= 'Z') || ('a' <= c <= 'z') || ('0' <= c <= '9') || c == '+' || c == '/'
}

/// Whether `s` is the unpadded standard Base64 text of 16 bytes: 22 characters,
/// the last of which carries two data bits and four zero bits.
pub open spec fn salt_text(s: Seq<char>) -> bool {
    &&& s.len() == 22
    &&& forall|i: int| 0 <= i < 22 ==> b64_char(#[trigger] s[i])
    &&& (s[21] == 'A' || s[21] == 'Q' || s[21] == 'g' || s[21] == 'w')
}

/// Relies on `SaltString::generate` of argon2's password-hash, fed by rand_core's
/// `OsRng`: 16 random bytes (`Salt::RECOMMENDED_LENGTH`) encoded as unpadded
/// standard Base64 (`Encoding::B64`), of which the text is returned.
#[verifier::external_body]
fn fresh_salt() -> (r: String)
    ensures
        salt_text(r@),
{
    argon2::password_hash::SaltString::generate(&mut rand_core::OsRng).as_str().to_string()
}

/// Relies on argon2's `PasswordHasher::hash_password` with `Argon2::default()`,
/// the salt given as its Base64 text (`Salt::from_b64`). It fails only on a
/// password over `u32::MAX` bytes or a salt that does not decode to 8 to 64
/// bytes. The PHC string that it renders embeds the algorithm, parameters and
/// salt, and verification with `Argon2::default()` recomputes the digest from
/// them, so it accepts this password.
#[verifier::external_body]
fn argon2_hash(password: &str, salt: &str) -> (r: Result<String, String>)
    ensures
        password.len() <= 0xFFFF_FFFF && salt_text(salt@) ==> r is Ok,
        r matches Ok(h) ==> argon2_check(password@, h@) == Some(true),
{
    let salt = argon2::password_hash::Salt::from_b64(salt).map_err(|e| e.to_string())?;
    argon2::PasswordHasher::hash_password(&argon2::Argon2::default(), password.as_bytes(), salt)
        .map(|h| h.to_string())
        .map_err(|e| e.to_string())
}

/// Relies on argon2's `PasswordHash::new` to parse the PHC string and on
/// `PasswordVerifier::verify_password` with `Argon2::default()` to check it.
#[verifier::external_body]
fn argon2_verify(password: &str, phc: &str) -> (r: Option<bool>)
    ensures
        r == argon2_check(password@, phc@),
{
    let parsed = argon2::PasswordHash::new(phc).ok()?;
    Some(
        argon2::PasswordVerifier::verify_password(
            &argon2::Argon2::default(),
            password.as_bytes(),
            &parsed,
        ).is_ok(),
    )
}

/// What `verify_password` returns for a password and a stored hash.
pub open spec fn verify_outcome(password: Seq<char>, phc: Seq<char>) -> Result<bool, AuthError> {
    match argon2_check(password, phc) {
        Some(b) => Ok(b),
        None => Err(AuthError::VerificationError),
    }
}

/// What `hash_password` guarantees of its result for `password`, which is
/// `bytes` bytes long in UTF-8.
pub open spec fn hash_agrees(password: Seq<char>, bytes: int, r: Result<String, AuthError>) -> bool {
    &&& bytes <= 0xFFFF_FFFF ==> r is Ok
    &&& r matches Ok(h) ==> verify_outcome(password, h@) == Ok::<bool, AuthError>(true)
    &&& r matches Err(e) ==> e is HashingError
}

/// Hashes a password under a fresh random salt. It succeeds on every password
/// of at most `u32::MAX` bytes, and the hash always verifies against the
/// password it was made from.
pub fn hash_password(password: &str) -> (r: Result<String, AuthError>)
    ensures
        hash_agrees(password@, password.len() as int, r),
{
    let salt = fresh_salt();
    match argon2_hash(password, salt.as_str()) {
        Ok(h) => Ok(h),
        Err(msg) => Err(AuthError::HashingError(msg)),
    }
}

/// Checks a password against a stored PHC hash: `Ok(true)` when it matches,
/// `Ok(false)` when it does not, `VerificationError` when the hash is malformed.
pub fn verify_password(password: &str, hash: &str) -> (r: Result<bool, AuthError>)
    ensures
        r == verify_outcome(password@, hash@),
{
    match argon2_verify(password, hash) {
        Some(b) => Ok(b),
        None => Err(AuthError::VerificationError),
    }
}

/// Every hash made from a password verifies against that password.
pub proof fn lemma_hash_then_verify(
    password: Seq<char>,
    bytes: int,
    hashed: Result<String, AuthError>,
    verified: Result<bool, AuthError>,
)
    requires
        hash_agrees(password, bytes, hashed),
        hashed matches Ok(h) ==> verified == verify_outcome(password, h@),
    ensures
        hashed is Ok ==> verified == Ok::<bool, AuthError>(true),
{
}

} // verus!
