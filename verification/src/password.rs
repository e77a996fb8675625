//! Password hashes.

use bcrypt::BcryptError;
use vstd::prelude::*;

verus! {

/// `bcrypt::BcryptError`, which says why a password could not be hashed or checked.
#[verifier::external_type_specification]
#[verifier::external_body]
pub struct ExBcryptError(bcrypt::BcryptError);

/// What `bcrypt::verify` finds of a password and a hash: whether they match, or `None` where it
/// reports an error, as for a text that is no bcrypt hash.
pub uninterp spec fn bcrypt_check(password: Seq<char>, hash: Seq<char>) -> Option<bool>;

/// `bcrypt::verify` hashes the password with the salt and the cost of the hash and compares.
#[verifier::external_body]
fn bcrypt_verify(password: &str, hash: &str) -> (res: Result<bool, BcryptError>)
    ensures
        match res {
            Ok(matches) => bcrypt_check(password@, hash@) == Some(matches),
            Err(_) => bcrypt_check(password@, hash@) is None,
        },
{
    bcrypt::verify(password, hash)
}

/// `bcrypt::hash` at the default cost, with a salt drawn at random. Each hash is sixty characters
/// that begin with the version and the cost, and `bcrypt::verify` matches the password with it.
/// It fails where the system has no random numbers to give.
#[verifier::external_body]
fn bcrypt_hash(password: &str) -> (res: Result<String, BcryptError>)
    ensures
        res matches Ok(hash) ==> is_hash_of(hash@, password@),
{
    bcrypt::hash(password, bcrypt::DEFAULT_COST)
}

/// Whether a check of a password lets the user in; a check that reports an error does not.
pub open spec fn accepts(check: Option<bool>) -> bool {
    check == Some(true)
}

/// A hash of `password` that the password passes.
pub open spec fn is_hash_of(hash: Seq<char>, password: Seq<char>) -> bool {
    &&& hash.len() == 60
    &&& "$2b$12$"@.is_prefix_of(hash)
    &&& bcrypt_check(password, hash) == Some(true)
}

/// What a call of [`bcrypt_hash`] on this password has given.
pub closed spec fn is_hashed(password: Seq<char>, result: Result<String, BcryptError>) -> bool {
    exists|text: &str| #[trigger]
        call_ensures(bcrypt_hash, (text,), result) && text@ == password
}

/// What hashing has given came out of [`bcrypt_hash`].
proof fn hashes_come_from_bcrypt(
    password: Seq<char>,
    result: Result<String, BcryptError>,
)
    requires
        is_hashed(password, result),
    ensures
        exists|text: &str| #[trigger]
            call_ensures(bcrypt_hash, (text,), result) && text@ == password,
{
}

/// Whether the password matches the hash; `None` for a text that is no hash.
pub fn check_password(password: &str, hash: &str) -> (res: Option<bool>)
    ensures
        res == bcrypt_check(password@, hash@),
{
    match bcrypt_verify(password, hash) {
        Ok(matches) => Some(matches),
        Err(_) => None,
    }
}

/// A fresh hash of the password. It fails where bcrypt fails, and only there.
pub fn hash_password(password: &str) -> (res: Result<String, BcryptError>)
    ensures
        res matches Ok(hash) ==> is_hash_of(hash@, password@),
        is_hashed(password@, res),
{
    let res = bcrypt_hash(password);
    assert(call_ensures(bcrypt_hash, (password,), res));
    res
}

} // verus!
