//! The decisions of a password reset: what goes into the link that is sent
//! out, and what a request that comes back through such a link is answered.

use crate::text::constant_time_eq;
use crate::token::token_text;
use crate::token::token_valid;
use crate::token::ResetToken;
use crate::uid::base64url_text;
use crate::uid::decode_uid;
use crate::uid::encode_uid;
use crate::uid::uid_value;
use crate::uid::UidError;
use crate::text::decimal_text;
use crate::user::User;
use vstd::prelude::*;
use vstd::string::StringExecFns;
use vstd::utf8::encode_utf8;

verus! {

/// Why a reset request is turned down.
#[derive(Debug)]
pub enum ResetError {
    /// The link lacks the token or the id.
    MissingParameters,
    /// The id in the link cannot be read.
    Uid(UidError),
    /// The store knows no user with the id.
    UserNotFound,
    /// The new password and its repetition differ.
    PasswordMismatch,
    /// The token is not good for the user.
    InvalidToken,
}

/// The two parts of a reset link.
#[derive(Debug)]
pub struct ResetLink {
    /// The reset token.
    pub token: String,
    /// The user's id, encoded for the link.
    pub uid: String,
}

/// The path of a reset link with these parts.
pub open spec fn link_path(token: Seq<char>, uid: Seq<char>) -> Seq<char> {
    "/reset/"@ + token + "/"@ + uid
}

impl ResetLink {
    /// The parts of a link for `user`, with a token made now.
    pub fn new(user: &User, secret: &[u8]) -> (link: ResetLink)
        requires
            user@.id is Some,
        ensures
            exists|ts: i64|
                ts >= 0 && link.token@ == token_text(
                    user@.id->0,
                    user@.password_hash,
                    secret@,
                    ts,
                ),
            link.uid@ == base64url_text(encode_utf8(decimal_text(user@.id->0 as int))),
            uid_value(link.uid@) == Ok::<i64, UidError>(user@.id->0),
    {
        ResetLink { token: ResetToken.make_token(user, secret), uid: encode_uid(user.id()) }
    }

    /// The parts of a link for `user`, with the token made at `ts`.
    pub fn with_timestamp(user: &User, secret: &[u8], ts: i64) -> (link: ResetLink)
        requires
            user@.id is Some,
        ensures
            link.token@ == token_text(user@.id->0, user@.password_hash, secret@, ts),
            link.uid@ == base64url_text(encode_utf8(decimal_text(user@.id->0 as int))),
            uid_value(link.uid@) == Ok::<i64, UidError>(user@.id->0),
    {
        ResetLink {
            token: ResetToken.make_token_with_timestamp(user, secret, ts),
            uid: encode_uid(user.id()),
        }
    }

    /// The path under which the link is served.
    pub fn path(&self) -> (text: String)
        ensures
            text@ == link_path(self.token@, self.uid@),
    {
        let mut text = String::from_str("/reset/");
        text.append(self.token.as_str());
        text.append("/");
        text.append(self.uid.as_str());
        text
    }
}

/// Whether a new password and its repetition are the same.
pub fn validate_password(password1: &str, password2: &str) -> (checked: Result<(), ResetError>)
    ensures
        password1@ == password2@ ==> checked is Ok,
        password1@ != password2@ ==> checked == Err::<(), ResetError>(ResetError::PasswordMismatch),
{
    if constant_time_eq(password1, password2) {
        Ok(())
    } else {
        Err(ResetError::PasswordMismatch)
    }
}

/// The id of the user that a reset request is about, read from the two
/// parts of its link.
pub fn reset_target(token: Option<&str>, uid: Option<&str>) -> (target: Result<i64, ResetError>)
    ensures
        target == match (token, uid) {
            (Some(_), Some(text)) => match uid_value(text@) {
                Ok(id) => Ok::<i64, ResetError>(id),
                Err(error) => Err(ResetError::Uid(error)),
            },
            _ => Err(ResetError::MissingParameters),
        },
{
    match (token, uid) {
        (Some(_), Some(text)) => match decode_uid(text) {
            Ok(id) => Ok(id),
            Err(error) => Err(ResetError::Uid(error)),
        },
        _ => Err(ResetError::MissingParameters),
    }
}

/// Whether a reset request is granted at the time `now`, given what the
/// store found under the id of its link: the user must exist, the two
/// passwords must agree, and the token must be good for the user.
pub fn check_reset_at(
    found: &Option<User>,
    token: &str,
    password1: &str,
    password2: &str,
    secret: &[u8],
    timeout_secs: i64,
    now: i64,
) -> (granted: Result<(), ResetError>)
    requires
        found matches Some(user) ==> user@.id is Some,
    ensures
        granted == match found {
            None => Err::<(), ResetError>(ResetError::UserNotFound),
            Some(user) => if password1@ != password2@ {
                Err(ResetError::PasswordMismatch)
            } else if !token_valid(
                user@.id->0,
                user@.password_hash,
                secret@,
                token@,
                timeout_secs,
                now,
            ) {
                Err(ResetError::InvalidToken)
            } else {
                Ok(())
            },
        },
{
    match found {
        None => Err(ResetError::UserNotFound),
        Some(user) => {
            match validate_password(password1, password2) {
                Ok(_) => {},
                Err(error) => {
                    return Err(error);
                },
            }
            if ResetToken.check_token_at(user, token, secret, timeout_secs, now) {
                Ok(())
            } else {
                Err(ResetError::InvalidToken)
            }
        },
    }
}

} // verus!
