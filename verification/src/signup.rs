//! The decisions of a signup: what record, if any, is made of the fields
//! that were entered.

use crate::text::constant_time_eq;
use crate::user::fits_limit;
use crate::user::hashable;
use crate::user::password_standing;
use crate::user::MAX_PASSWORD_BYTES;
use crate::user::LimitedString;
use crate::user::User;
use vstd::prelude::*;
use vstd::utf8::encode_utf8;

verus! {

/// Why no record is made of a signup.
#[derive(Debug, Clone, Copy, PartialEq, Eq, Structural)]
pub enum SignupError {
    /// The password and its repetition differ.
    PasswordMismatch,
    /// The username is longer than the store keeps; its length in bytes.
    UsernameTooLong(usize),
    /// The display name is longer than the store keeps; its length in bytes.
    NameTooLong(usize),
    /// The password is longer than can be hashed.
    PasswordTooLong,
}

/// What a signup with these fields ends in, but for the record itself: the
/// passwords are compared first, then the username is measured, then the
/// display name, then the password.
pub open spec fn signup_refusal(
    fullname: Seq<char>,
    username: Seq<char>,
    password1: Seq<char>,
    password2: Seq<char>,
) -> Option<SignupError> {
    if password1 != password2 {
        Some(SignupError::PasswordMismatch)
    } else if !fits_limit(username) {
        Some(SignupError::UsernameTooLong(encode_utf8(username).len() as usize))
    } else if !fits_limit(fullname) {
        Some(SignupError::NameTooLong(encode_utf8(fullname).len() as usize))
    } else if !hashable(password1) {
        Some(SignupError::PasswordTooLong)
    } else {
        None
    }
}

/// The record of a new user, not yet saved and so without an id, with the
/// password hashed under a fresh salt; or why none is made.
pub fn signup_user(
    fullname: String,
    email: String,
    username: String,
    password1: &str,
    password2: &str,
) -> (made: Result<User, SignupError>)
    ensures
        match made {
            Ok(user) => {
                &&& signup_refusal(fullname@, username@, password1@, password2@) is None
                &&& password_standing(user@.password_hash, password1@) == Some(false)
                &&& user@.id is None
                &&& user@.username == username@
                &&& user@.name == fullname@
                &&& user@.email == email@
            },
            Err(error) => signup_refusal(fullname@, username@, password1@, password2@) == Some(
                error,
            ),
        },
{
    if !constant_time_eq(password1, password2) {
        return Err(SignupError::PasswordMismatch);
    }
    let username = match LimitedString::new(username) {
        Ok(limited) => limited,
        Err(length) => {
            return Err(SignupError::UsernameTooLong(length));
        },
    };
    let name = match LimitedString::new(fullname) {
        Ok(limited) => limited,
        Err(length) => {
            return Err(SignupError::NameTooLong(length));
        },
    };
    if password1.as_bytes().len() > MAX_PASSWORD_BYTES {
        return Err(SignupError::PasswordTooLong);
    }
    Ok(User::new(None, username, password1, email, name))
}

} // verus!
