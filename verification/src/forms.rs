//! The data that the login and signup forms submit, and what is asked of
//! it before an account is made.

use vstd::prelude::*;
use vstd::utf8::{encode_scalar, encode_utf8, is_ascii_chars, is_ascii_chars_encode_utf8};

verus! {

/// What the login form submits. The password is plain text.
pub struct LoginForm {
    pub user: String,
    pub password: String,
}

/// What the signup form submits. The password is plain text.
pub struct SignupForm {
    pub user: String,
    pub realname: String,
    pub password: String,
}

/// The length of a text in bytes, as UTF-8.
pub open spec fn byte_len(text: Seq<char>) -> nat {
    encode_utf8(text).len()
}

/// What the signup form is told of a login name that is too short.
pub open spec fn short_username() -> Seq<char> {
    "Username must be at least two characters"@
}

/// What the signup form is told of a missing real name.
pub open spec fn missing_realname() -> Seq<char> {
    "A real name (or pseudonym) must be given"@
}

/// What the signup form is told of a password that is too short.
pub open spec fn weak_password() -> Seq<char> {
    "Please use a better password"@
}

/// The first complaint about a submitted signup, if there is one: the
/// login name has at least two bytes, the real name is not empty and the
/// password has at least three bytes.
pub open spec fn complaint(user: Seq<char>, realname: Seq<char>, password: Seq<char>) -> Option<
    Seq<char>,
> {
    if byte_len(user) < 2 {
        Some(short_username())
    } else if realname.len() == 0 {
        Some(missing_realname())
    } else if byte_len(password) < 3 {
        Some(weak_password())
    } else {
        None
    }
}

impl SignupForm {
    /// The first complaint about this form, if there is one.
    pub open spec fn complaint(&self) -> Option<Seq<char>> {
        complaint(self.user@, self.realname@, self.password@)
    }

    /// Hands the form back if nothing is wrong with it, and says what is
    /// wrong otherwise.
    pub fn validate(self) -> (checked: Result<SignupForm, &'static str>)
        ensures
            match checked {
                Ok(form) => self.complaint() is None && form == self,
                Err(message) => self.complaint() == Some(message@),
            },
    {
        if self.user.as_str().as_bytes().len() < 2 {
            Err("Username must be at least two characters")
        } else if self.realname.as_str().is_empty() {
            Err("A real name (or pseudonym) must be given")
        } else if self.password.as_str().as_bytes().len() < 3 {
            Err("Please use a better password")
        } else {
            Ok(self)
        }
    }
}

/// A text has at least as many bytes as characters.
pub proof fn lemma_byte_len_at_least_len(text: Seq<char>)
    ensures
        byte_len(text) >= text.len(),
    decreases text.len(),
{
    if text.len() > 0 {
        lemma_byte_len_at_least_len(text.drop_first());
        assert(encode_scalar(text[0] as u32).len() >= 1);
    }
}

/// A signup with a login name of two characters or more, a real name that
/// is not empty and a password of three characters or more passes
/// validation.
pub proof fn law_signup_accepted(user: Seq<char>, realname: Seq<char>, password: Seq<char>)
    requires
        user.len() >= 2,
        realname.len() >= 1,
        password.len() >= 3,
    ensures
        complaint(user, realname, password) is None,
{
    lemma_byte_len_at_least_len(user);
    lemma_byte_len_at_least_len(password);
}

/// A signup in ASCII is refused for a login name of fewer than two
/// characters, else for an empty real name, else for a password of fewer
/// than three characters, each with its own message, and for nothing
/// else.
pub proof fn law_signup_refused(user: Seq<char>, realname: Seq<char>, password: Seq<char>)
    requires
        is_ascii_chars(user),
        is_ascii_chars(password),
    ensures
        complaint(user, realname, password) == (if user.len() < 2 {
            Some(short_username())
        } else if realname.len() == 0 {
            Some(missing_realname())
        } else if password.len() < 3 {
            Some(weak_password())
        } else {
            None
        }),
{
    is_ascii_chars_encode_utf8(user);
    is_ascii_chars_encode_utf8(password);
}

} // verus!
