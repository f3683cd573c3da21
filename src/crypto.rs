use argon2::password_hash::rand_core::{OsRng, RngCore};
use argon2::password_hash::{PasswordHash, PasswordHasher, PasswordVerifier, Salt, SaltString};
use argon2::Argon2;
use vstd::prelude::*;

verus! {

broadcast use vstd::string::group_string_axioms;

#[verifier::external_type_specification]
#[verifier::external_body]
pub struct ExPasswordHashError(argon2::password_hash::Error);

/// The string parses as a PHC password hash.
pub uninterp spec fn phc_parses(phc: Seq<char>) -> bool;

/// Argon2 accepts `password` against the parsed PHC hash `phc`.
pub uninterp spec fn phc_accepts(password: Seq<char>, phc: Seq<char>) -> bool;

/// Why a credential operation failed.
#[derive(Clone, Copy, Debug, PartialEq, Eq, Structural)]
pub enum CredentialError {
    /// Computing the hash failed.
    HashFailed,
    /// The stored hash is not a PHC string.
    MalformedHash,
}

/// `phc` is an Argon2id hash of `password`: a PHC string of the Argon2id
/// algorithm that parses, and against which the password verifies.
pub open spec fn hash_of(password: Seq<char>, phc: Seq<char>) -> bool {
    &&& "$argon2id$"@.is_prefix_of(phc)
    &&& phc_parses(phc)
    &&& phc_accepts(password, phc)
}

/// What verifying `password` against the stored hash `phc` answers.
pub open spec fn verify_outcome(password: Seq<char>, phc: Seq<char>) -> Result<bool, CredentialError> {
    if phc_parses(phc) {
        Ok(phc_accepts(password, phc))
    } else {
        Err(CredentialError::MalformedHash)
    }
}

/// Relies on argon2's PasswordHasher::hash_password with Argon2::default and
/// a salt of Salt::RECOMMENDED_LENGTH bytes from OsRng::try_fill_bytes,
/// encoded by SaltString::encode_b64 (a failing random source gives an
/// error): the PHC string it gives names the default algorithm, Argon2id,
/// first, parses, and the same password verifies against it.
#[verifier::external_body]
fn argon2_hash(password: &str) -> (r: Result<String, argon2::password_hash::Error>)
    ensures
        r is Ok ==> "$argon2id$"@.is_prefix_of(r->Ok_0@) && phc_parses(r->Ok_0@) && phc_accepts(
            password@,
            r->Ok_0@,
        ),
{
    let mut bytes = [0u8; Salt::RECOMMENDED_LENGTH];
    OsRng.try_fill_bytes(&mut bytes).map_err(|_| argon2::password_hash::Error::Crypto)?;
    let salt = SaltString::encode_b64(&bytes)?;
    Argon2::default().hash_password(password.as_bytes(), &salt).map(|h| h.to_string())
}

/// Relies on PasswordHash::new, which fails on a string that is no PHC hash,
/// and on Argon2::default's PasswordVerifier::verify_password, of which only
/// success is kept.
#[verifier::external_body]
fn argon2_verify(password: &str, phc: &str) -> (r: Result<bool, argon2::password_hash::Error>)
    ensures
        r is Ok <==> phc_parses(phc@),
        r is Ok ==> r->Ok_0 == phc_accepts(password@, phc@),
{
    let hash = PasswordHash::new(phc)?;
    Ok(Argon2::default().verify_password(password.as_bytes(), &hash).is_ok())
}

/// Hashes a password with Argon2 and a fresh random salt, as a PHC string.
pub fn hash_password(password: &String) -> (r: Result<String, CredentialError>)
    ensures
        match r {
            Ok(phc) => hash_of(password@, phc@),
            Err(e) => e == CredentialError::HashFailed,
        },
{
    match argon2_hash(password.as_str()) {
        Ok(phc) => Ok(phc),
        Err(_) => Err(CredentialError::HashFailed),
    }
}

/// Checks a password against a stored PHC hash.
pub fn verify_password(password: &String, hash: &String) -> (r: Result<bool, CredentialError>)
    ensures
        r == verify_outcome(password@, hash@),
{
    match argon2_verify(password.as_str(), hash.as_str()) {
        Ok(accepted) => Ok(accepted),
        Err(_) => Err(CredentialError::MalformedHash),
    }
}

/// A password verifies against any hash made of it.
pub proof fn lemma_hash_round_trip(password: Seq<char>, phc: Seq<char>)
    requires
        hash_of(password, phc),
    ensures
        verify_outcome(password, phc) == Ok::<bool, CredentialError>(true),
{
}

} // verus!
