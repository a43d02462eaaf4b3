//! Random session secrets, drawn with the `rand` crate.

use rand::Rng;
use vstd::prelude::*;

verus! {

/// The length of the secret that a session cookie carries.
pub const SECRET_LEN: usize = 48;

/// An ASCII letter or digit.
pub open spec fn is_alphanumeric(c: char) -> bool {
    ('0' <= c && c <= '9') || ('A' <= c && c <= 'Z') || ('a' <= c && c <= 'z')
}

/// A string of letters and digits only.
pub open spec fn all_alphanumeric(s: Seq<char>) -> bool {
    forall|i: int| 0 <= i < s.len() ==> is_alphanumeric(#[trigger] s[i])
}

/// Draws one byte from `rand`'s `Alphanumeric` distribution with the
/// thread's generator. Which byte comes is left open; it is always the
/// ASCII code of a letter or a digit.
#[verifier::external_body]
fn random_alphanumeric() -> (b: u8)
    ensures
        (48 <= b && b <= 57) || (65 <= b && b <= 90) || (97 <= b && b <= 122),
{
    rand::thread_rng().sample(rand::distributions::Alphanumeric)
}

/// A fresh random key of `len` letters and digits.
pub fn random_key(len: usize) -> (key: String)
    ensures
        key@.len() == len,
        all_alphanumeric(key@),
{
    let mut key = String::new();
    let mut n: usize = 0;
    while n < len
        invariant
            n <= len,
            key@.len() == n,
            all_alphanumeric(key@),
        decreases len - n,
    {
        let b: u8 = random_alphanumeric();
        key.push(b as char);
        n = n + 1;
    }
    key
}

} // verus!
