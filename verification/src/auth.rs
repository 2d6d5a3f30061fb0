//! The decisions of a login attempt. The store is not reached from here: the
//! caller looks the user up and saves the record, and hands over what the
//! store answered.

use crate::user::fits_limit;
use crate::user::password_standing;
use crate::user::LimitedString;
use crate::user::User;
use crate::user::UserCredentials;
use crate::user::UserView;
use crate::user::Verification;
use vstd::prelude::*;
use vstd::string::StringExecFns;

verus! {

/// Why a login attempt failed without an answer.
#[derive(Debug)]
pub enum AuthError {
    /// The username cannot be the key of any stored record.
    InvalidCredentialsFormat,
    /// The store failed; the text is the cause it gave.
    BackendError(String),
}

/// What is to happen after the password was checked.
pub enum AuthStep {
    /// The attempt is over: the user it authenticated, or nobody. A wrong
    /// password and an unknown username both end in nobody.
    Done(Option<User>),
    /// The password was right and the hash is obsolete: the record, which now
    /// holds the new hash, is to be saved before the attempt is over.
    Save(User),
}

/// What follows from an outcome of checking the password of `user`.
pub open spec fn step_follows(user: User, outcome: Verification, step: AuthStep) -> bool {
    match outcome {
        Verification::Valid => step == AuthStep::Done(Some(user)),
        Verification::ValidButObsolete(hash) => step matches AuthStep::Save(u) && u@ == (UserView {
            password_hash: hash@,
            ..user@
        }),
        Verification::Invalid => step == AuthStep::Done(None),
    }
}

impl User {
    /// The key under which the store is asked for the user of these
    /// credentials. A username longer than any stored one is refused.
    pub fn lookup_key(credentials: &UserCredentials) -> (key: Result<LimitedString, AuthError>)
        ensures
            match key {
                Ok(limited) => fits_limit(credentials@.username) && limited@
                    == credentials@.username,
                Err(error) => !fits_limit(credentials@.username)
                    && error is InvalidCredentialsFormat,
            },
    {
        match LimitedString::new(String::from_str(credentials.username())) {
            Ok(limited) => Ok(limited),
            Err(_) => Err(AuthError::InvalidCredentialsFormat),
        }
    }

    /// What the store found for a lookup, with its failure as an error of
    /// this library.
    pub fn get_by_id(found: Result<Option<User>, String>) -> (user: Result<Option<User>, AuthError>)
        ensures
            match found {
                Ok(record) => user == Ok::<Option<User>, AuthError>(record),
                Err(cause) => user == Err::<Option<User>, AuthError>(
                    AuthError::BackendError(cause),
                ),
            },
    {
        match found {
            Ok(record) => Ok(record),
            Err(cause) => Err(AuthError::BackendError(cause)),
        }
    }

    /// Checks the password of the credentials against the record that the
    /// store found under their username. Nobody is authenticated where the
    /// store found no record or the password does not match. Where the
    /// password matches an obsolete hash, the record to save holds a hash of
    /// the same password under the current parameters, so that the next
    /// attempt with it finds nothing to save.
    pub fn authenticate(found: Option<User>, credentials: &UserCredentials) -> (step: AuthStep)
        ensures
            match found {
                None => step == AuthStep::Done(None),
                Some(user) => match password_standing(
                    user@.password_hash,
                    credentials@.password,
                ) {
                    None => step == AuthStep::Done(None),
                    Some(false) => step == AuthStep::Done(Some(user)),
                    Some(true) => step matches AuthStep::Save(u) && u@.id == user@.id
                        && u@.username == user@.username && u@.name == user@.name && u@.email
                        == user@.email && password_standing(
                        u@.password_hash,
                        credentials@.password,
                    ) == Some(false),
                },
            },
    {
        match found {
            None => AuthStep::Done(None),
            Some(user) => {
                let outcome = user.password_hash().verify(credentials.password());
                User::resolve(user, outcome)
            },
        }
    }

    /// What follows from an outcome of checking the password of `user`: a
    /// valid password authenticates the user, an obsolete hash is replaced in
    /// the record, which is then to be saved, and an invalid one
    /// authenticates nobody.
    pub fn resolve(user: User, outcome: Verification) -> (step: AuthStep)
        ensures
            step_follows(user, outcome, step),
    {
        match outcome {
            Verification::Valid => AuthStep::Done(Some(user)),
            Verification::ValidButObsolete(hash) => AuthStep::Save(user.with_password_hash(hash)),
            Verification::Invalid => AuthStep::Done(None),
        }
    }

    /// The end of an attempt whose record had to be saved: the user where
    /// the store saved it; where it did not, the store's failure, though the
    /// password was right.
    pub fn conclude(user: User, saved: Result<(), String>) -> (answer: Result<
        Option<User>,
        AuthError,
    >)
        ensures
            match saved {
                Ok(_) => answer == Ok::<Option<User>, AuthError>(Some(user)),
                Err(cause) => answer == Err::<Option<User>, AuthError>(
                    AuthError::BackendError(cause),
                ),
            },
    {
        match saved {
            Ok(_) => Ok(Some(user)),
            Err(cause) => Err(AuthError::BackendError(cause)),
        }
    }
}

} // verus!
