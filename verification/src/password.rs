//! Passwords: hashed on the way in, verified at login.

use crate::http::ErrorCode;
use vstd::prelude::*;

verus! {

/// The error of the crate bcrypt. It is carried through and never read.
#[verifier::external_type_specification]
#[verifier::external_body]
pub struct ExBcryptError(bcrypt::BcryptError);

/// What `bcrypt::verify` gives for a password and a digest: whether the
/// password matches, or nothing where the digest is no bcrypt hash.
pub uninterp spec fn bcrypt_verify(password: Seq<char>, digest: Seq<char>) -> Option<bool>;

/// Checks a password against a digest with `bcrypt::verify`, which reads the
/// cost and the salt from the digest, hashes the password with them and
/// compares the two hashes in constant time. The result depends on the two
/// texts alone.
#[verifier::external_body]
fn verify_password(password: &str, digest: &str) -> (r: Result<bool, bcrypt::BcryptError>)
    ensures
        match r {
            Ok(matches) => bcrypt_verify(password@, digest@) == Some(matches),
            Err(_) => bcrypt_verify(password@, digest@) is None,
        },
{
    bcrypt::verify(password, digest)
}

/// What `bcrypt::hash_with_salt` gives, as a text, for a password and a salt
/// of sixteen bytes at the default cost; nothing where it fails.
pub uninterp spec fn bcrypt_digest(password: Seq<char>, salt: Seq<u8>) -> Option<Seq<char>>;

/// Hashes a password under a given salt with `bcrypt::hash_with_salt` at the
/// default cost, and writes the hash in the usual form. The result depends on
/// the password and the salt alone. The digest carries the cost and the salt,
/// so that `bcrypt::verify` recomputes the same hash from the password and
/// accepts it.
#[verifier::external_body]
fn hash_with_salt(password: &str, salt: &Vec<u8>) -> (r: Result<String, bcrypt::BcryptError>)
    requires
        salt@.len() == 16,
    ensures
        match r {
            Ok(digest) => bcrypt_digest(password@, salt@) == Some(digest@) && bcrypt_verify(
                password@,
                digest@,
            ) == Some(true),
            Err(_) => bcrypt_digest(password@, salt@) is None,
        },
{
    let mut block = [0u8; 16];
    block.copy_from_slice(salt.as_slice());
    match bcrypt::hash_with_salt(password, bcrypt::DEFAULT_COST, block) {
        Ok(parts) => Ok(parts.to_string()),
        Err(error) => Err(error),
    }
}

/// The password is the one that the digest was made from.
pub open spec fn accepts(password: Seq<char>, digest: Seq<char>) -> bool {
    bcrypt_verify(password, digest) == Some(true)
}

/// What a verification says of a login: only a plain yes lets it pass.
pub fn verdict_accepts(verdict: &Result<bool, bcrypt::BcryptError>) -> (r: bool)
    ensures
        r == (*verdict matches Ok(matches) && matches),
{
    match verdict {
        Ok(matches) => *matches,
        Err(_) => false,
    }
}

/// Tells whether the password is the one that the digest was made from.
pub fn password_matches(password: &str, digest: &str) -> (r: bool)
    ensures
        r == accepts(password@, digest@),
{
    let verdict = verify_password(password, digest);
    verdict_accepts(&verdict)
}

/// A digest as plain values.
pub open spec fn digest_view(digest: Result<String, ErrorCode>) -> Result<Seq<char>, ErrorCode> {
    match digest {
        Ok(text) => Ok(text@),
        Err(code) => Err(code),
    }
}

/// The digest that is stored for a password under a salt, or the failure that
/// is reported where the hashing fails.
pub open spec fn stored_digest(password: Seq<char>, salt: Seq<u8>) -> Result<
    Seq<char>,
    ErrorCode,
> {
    if salt.len() != 16 {
        Err(ErrorCode::HashPasswordFailed)
    } else {
        match bcrypt_digest(password, salt) {
            Some(digest) => Ok(digest),
            None => Err(ErrorCode::HashPasswordFailed),
        }
    }
}

/// What a hashing gives: the digest, or the failure that is reported for it.
pub fn digest_outcome(hashed: Result<String, bcrypt::BcryptError>) -> (r: Result<
    String,
    ErrorCode,
>)
    ensures
        digest_view(r) == match hashed {
            Ok(digest) => Ok::<Seq<char>, ErrorCode>(digest@),
            Err(_) => Err(ErrorCode::HashPasswordFailed),
        },
{
    match hashed {
        Ok(digest) => Ok(digest),
        Err(_) => Err(ErrorCode::HashPasswordFailed),
    }
}

/// The digest of a password under a salt, which has to be sixteen bytes long.
pub fn hash_password(password: &str, salt: &Vec<u8>) -> (r: Result<String, ErrorCode>)
    ensures
        digest_view(r) == stored_digest(password@, salt@),
        r matches Ok(digest) ==> accepts(password@, digest@),
{
    if salt.len() != 16 {
        return Err(ErrorCode::HashPasswordFailed);
    }
    digest_outcome(hash_with_salt(password, salt))
}

} // verus!
