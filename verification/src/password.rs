//! Password hashing and checking, done by the `bcrypt` crate.

use vstd::prelude::*;

verus! {

/// The error type of the `bcrypt` crate.
#[verifier::external_type_specification]
#[verifier::external_body]
pub struct ExBcryptError(bcrypt::BcryptError);

/// What `bcrypt::verify` answers for a password and a stored hash: whether
/// the hash was made from the password, or nothing where the hash cannot be
/// read as a bcrypt hash or the password holds a NUL character.
pub uninterp spec fn password_check(password: Seq<char>, hash: Seq<char>) -> Option<bool>;

/// Calls `bcrypt::verify`. The answer depends on the two strings alone, so
/// it is `password_check` of them; an `Err` stands for its `None`.
#[verifier::external_body]
pub(crate) fn verify(password: &str, hash: &str) -> (r: Result<bool, bcrypt::BcryptError>)
    ensures
        match r {
            Ok(b) => password_check(password@, hash@) == Some(b),
            Err(_) => password_check(password@, hash@) is None,
        },
{
    bcrypt::verify(password, hash)
}

/// Calls `bcrypt::hash` with the crate's default cost. The salt is random,
/// so the hash itself is not determined; whatever it is, `bcrypt::verify`
/// accepts the same password against it. A password that holds a NUL
/// character is refused.
#[verifier::external_body]
pub(crate) fn hash(password: &str) -> (r: Result<String, bcrypt::BcryptError>)
    ensures
        r matches Ok(h) ==> password_check(password@, h@) == Some(true),
        password@.contains('\0') ==> r is Err,
{
    bcrypt::hash(password, bcrypt::DEFAULT_COST)
}

/// The text that `bcrypt::BcryptError` displays. Nothing is claimed of it.
#[verifier::external_body]
pub(crate) fn error_text(e: &bcrypt::BcryptError) -> String {
    e.to_string()
}

} // verus!
