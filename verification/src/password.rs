//! One-way hashing of passwords, and the check of a password against a digest.

use vstd::prelude::*;
use vstd::string::StringExecFns;
use crate::error::{AppError, AppErrorView};

verus! {

/// The work factor of every digest that this service makes.
pub const HASH_COST: u32 = 10;

/// The shape of a digest made with work factor `cost`: the marker `$2b$`,
/// the cost in two decimal digits, `$`, then 53 characters of salt and hash.
pub open spec fn is_digest(digest: Seq<char>, cost: u32) -> bool {
    &&& digest.len() == 60
    &&& digest[0] == '$'
    &&& digest[1] == '2'
    &&& digest[2] == 'b'
    &&& digest[3] == '$'
    &&& digest[4] as int == '0' as int + cost as int / 10
    &&& digest[5] as int == '0' as int + cost as int % 10
    &&& digest[6] == '$'
}

/// Whether `password` is the one that `digest` was made from, as
/// `bcrypt::verify` decides it; `None` where it cannot read the digest.
pub uninterp spec fn password_matches(password: Seq<char>, digest: Seq<char>) -> Option<bool>;

/// `bcrypt::BcryptError`, the failure of `bcrypt::hash` and `bcrypt::verify`.
/// Nothing is known of its contents.
#[verifier::external_type_specification]
#[verifier::external_body]
pub struct ExBcryptError(bcrypt::BcryptError);

/// `bcrypt::hash`. The salt is drawn at random, so two calls differ. A
/// digest that comes back has the shape that the crate formats it in, and
/// `bcrypt::verify` accepts the password against it: it reads the salt and
/// the cost back from the digest and computes the same hash.
#[verifier::external_body]
fn bcrypt_hash(password: &str, cost: u32) -> (r: Result<String, bcrypt::BcryptError>)
    ensures
        r matches Ok(digest) ==> is_digest(digest@, cost),
        r matches Ok(digest) ==> password_matches(password@, digest@) == Some(true),
{
    bcrypt::hash(password, cost)
}

/// `bcrypt::verify`. The answer depends on the password and the digest alone.
#[verifier::external_body]
fn bcrypt_verify(password: &str, digest: &str) -> (r: Result<bool, bcrypt::BcryptError>)
    ensures
        r matches Ok(same) ==> password_matches(password@, digest@) == Some(same),
        r is Err ==> password_matches(password@, digest@) is None,
{
    bcrypt::verify(password, digest)
}

/// What hashing a password comes to, given the digest that was made, if any.
pub open spec fn hashed(digest: Option<Seq<char>>) -> Result<Seq<char>, AppErrorView> {
    match digest {
        Some(digest) => Ok(digest),
        None => Err(AppErrorView::BadRequest("Failed to hash password"@)),
    }
}

/// The view of a digest or of the failure to make one.
pub open spec fn hashed_view(r: Result<String, AppError>) -> Result<Seq<char>, AppErrorView> {
    match r {
        Ok(digest) => Ok(digest@),
        Err(e) => Err(e@),
    }
}

/// Makes a salted digest of `password` with work factor [`HASH_COST`].
/// The digest differs from call to call, and is one that the password
/// passes the check against; a failure is a bad request.
pub fn hash_password(password: &str) -> (r: Result<String, AppError>)
    ensures
        r matches Ok(digest) ==> is_digest(digest@, HASH_COST) && password_matches(
            password@,
            digest@,
        ) == Some(true),
        r matches Err(e) ==> e@ == AppErrorView::BadRequest("Failed to hash password"@),
{
    match bcrypt_hash(password, HASH_COST) {
        Ok(digest) => Ok(digest),
        Err(_) => Err(AppError::BadRequest(String::from_str("Failed to hash password"))),
    }
}

/// Whether a check of a password against a digest, with the outcome
/// `outcome`, lets the password pass. A digest that cannot be read passes
/// no password, as a wrong password does not.
pub open spec fn accepts(outcome: Option<bool>) -> bool {
    outcome == Some(true)
}

/// Whether `password` is the one that `digest` was made from. A digest
/// that cannot be read answers as a wrong password does.
pub fn verify_password(password: &str, digest: &str) -> (r: bool)
    ensures
        r == accepts(password_matches(password@, digest@)),
{
    match bcrypt_verify(password, digest) {
        Ok(same) => same,
        Err(_) => false,
    }
}

} // verus!
