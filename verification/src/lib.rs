//! Credential verification and signed password-reset tokens.
//!
//! - `user`: the user record, its password hash and how a password is
//!   checked against it;
//! - `auth`: the decisions of a login attempt;
//! - `token`: reset tokens, made from a timestamp and a keyed signature;
//! - `reset` and `signup`: the decisions of the two flows that change a
//!   password or create a record;
//! - `base36`, `text`, `digest`, `uid`: the encodings that the tokens and
//!   links are made of.
//!
//! Nothing here reads a database or a request: the caller does that, and
//! hands over plain values.

pub mod auth;
pub mod base36;
pub mod digest;
pub mod reset;
pub mod signup;
pub mod text;
pub mod token;
pub mod uid;
pub mod user;
