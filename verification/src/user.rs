//! The user record, its password hash and the credentials of one login attempt.

use crate::digest::hmac_sha512;
use crate::digest::keyed_digest_512;
use vstd::prelude::*;
use vstd::utf8::encode_utf8;

verus! {

/// The longest username and display name, in bytes, that the store keeps.
pub const NAME_LIMIT: usize = 254;

/// Whether a text is short enough to be stored as a username or display name.
pub open spec fn fits_limit(text: Seq<char>) -> bool {
    encode_utf8(text).len() <= NAME_LIMIT
}

/// How `password` stands to the stored encoding `hash`, as the password
/// hashing service finds it: `None` where it is not the password that the hash
/// was made from, or the text is no hash; else whether the hash was made with
/// parameters that are no longer the current ones.
pub uninterp spec fn password_standing(hash: Seq<char>, password: Seq<char>) -> Option<bool>;

/// Whether an outcome of checking a password is the one that belongs to a
/// standing.
pub open spec fn outcome_is(outcome: Verification, standing: Option<bool>) -> bool {
    match outcome {
        Verification::Valid => standing == Some(false),
        Verification::ValidButObsolete(_) => standing == Some(true),
        Verification::Invalid => standing is None,
    }
}

/// Whether the hash that an outcome brings in place of an obsolete one is a
/// hash of `password` under the current parameters.
pub open spec fn replacement_is_current(outcome: Verification, password: Seq<char>) -> bool {
    outcome matches Verification::ValidButObsolete(fresh) ==> password_standing(fresh@, password)
        == Some(false)
}

/// The longest password, in bytes, that can be hashed.
pub const MAX_PASSWORD_BYTES: usize = 0xFFFF_FFFF;

/// Whether a password is short enough to be hashed.
pub open spec fn hashable(password: Seq<char>) -> bool {
    encode_utf8(password).len() <= MAX_PASSWORD_BYTES
}

/// A text of at most `NAME_LIMIT` bytes.
#[derive(Debug)]
pub struct LimitedString {
    text: String,
}

impl View for LimitedString {
    type V = Seq<char>;

    closed spec fn view(&self) -> Seq<char> {
        self.text@
    }
}

impl LimitedString {
    #[verifier::type_invariant]
    spec fn within_limit(self) -> bool {
        fits_limit(self.text@)
    }

    /// Accepts a text that fits the limit; a longer one comes back as its
    /// length in bytes.
    pub fn new(text: String) -> (made: Result<LimitedString, usize>)
        ensures
            match made {
                Ok(limited) => fits_limit(text@) && limited@ == text@,
                Err(length) => !fits_limit(text@) && length == encode_utf8(text@).len(),
            },
    {
        let length: usize = text.as_str().as_bytes().len();
        if length > NAME_LIMIT {
            Err(length)
        } else {
            Ok(LimitedString { text })
        }
    }

    /// The text.
    pub fn as_str(&self) -> (text: &str)
        ensures
            text@ == self@,
            fits_limit(self@),
    {
        proof {
            use_type_invariant(self);
        }
        self.text.as_str()
    }
}

impl Clone for LimitedString {
    fn clone(&self) -> (copy: LimitedString)
        ensures
            copy@ == self@,
    {
        proof {
            use_type_invariant(self);
        }
        LimitedString { text: self.text.clone() }
    }
}

/// The stored encoding of a hashed password: algorithm, parameters, salt and
/// digest in one text. Two hashes are never compared; a password is checked
/// against a hash with `verify`.
pub struct PasswordHash {
    text: String,
}

impl View for PasswordHash {
    type V = Seq<char>;

    closed spec fn view(&self) -> Seq<char> {
        self.text@
    }
}

/// What checking a password against a hash found.
pub enum Verification {
    /// The password is the right one.
    Valid,
    /// The password is the right one, and the hash was made with parameters
    /// that are no longer current: the new hash is to be stored in its place.
    ValidButObsolete(PasswordHash),
    /// The password is wrong, or the hash is no hash at all.
    Invalid,
}

impl Clone for Verification {
    fn clone(&self) -> (copy: Verification)
        ensures
            match (*self, copy) {
                (Verification::Valid, Verification::Valid) => true,
                (Verification::ValidButObsolete(a), Verification::ValidButObsolete(b)) => a@ == b@,
                (Verification::Invalid, Verification::Invalid) => true,
                _ => false,
            },
    {
        match self {
            Verification::Valid => Verification::Valid,
            Verification::ValidButObsolete(hash) => Verification::ValidButObsolete(hash.clone()),
            Verification::Invalid => Verification::Invalid,
        }
    }
}

/// `PasswordHash::from_password` of cot, on a `Password` made of the text:
/// a hash under a random salt. Whatever the salt, the hash is one of this
/// password under the current parameters, which is what the hashing crate
/// beneath documents of a hash it has just generated. A password beyond
/// `MAX_PASSWORD_BYTES` is refused by the algorithm, and the call would not
/// return.
#[verifier::external_body]
fn service_hash(password: &str) -> (hash: PasswordHash)
    requires
        hashable(password@),
    ensures
        password_standing(hash@, password@) == Some(false),
{
    let fresh = cot::auth::PasswordHash::from_password(&cot::common_types::Password::new(password));
    PasswordHash { text: fresh.into_string() }
}

/// `PasswordHash::new` and `PasswordHash::verify` of cot: a stored text that
/// is no hash, and a password that does not match, give `Invalid`; which of
/// the three outcomes comes depends on the two texts alone. The replacement
/// hash of an obsolete one is made by `PasswordHash::from_password` of the
/// same password, under a random salt.
#[verifier::external_body]
fn service_verify(hash: &str, password: &str) -> (outcome: Verification)
    ensures
        outcome_is(outcome, password_standing(hash@, password@)),
        replacement_is_current(outcome, password@),
{
    match cot::auth::PasswordHash::new(hash) {
        Ok(stored) => match stored.verify(&cot::common_types::Password::new(password)) {
            cot::auth::PasswordVerificationResult::Ok => Verification::Valid,
            cot::auth::PasswordVerificationResult::OkObsolete(fresh) => {
                Verification::ValidButObsolete(PasswordHash { text: fresh.into_string() })
            },
            cot::auth::PasswordVerificationResult::Invalid => Verification::Invalid,
        },
        Err(_) => Verification::Invalid,
    }
}

impl PasswordHash {
    /// Hashes a password under a fresh random salt and the current
    /// parameters.
    pub fn from_password(password: &str) -> (hash: PasswordHash)
        requires
            hashable(password@),
        ensures
            password_standing(hash@, password@) == Some(false),
    {
        service_hash(password)
    }

    /// Takes a hash as it was stored. The text is not inspected: one that is
    /// no hash verifies no password.
    pub fn from_stored(text: String) -> (hash: PasswordHash)
        ensures
            hash@ == text@,
    {
        PasswordHash { text }
    }

    /// Checks a password against the hash. A hash with obsolete parameters
    /// comes with a fresh hash of the same password to store in its place.
    pub fn verify(&self, password: &str) -> (outcome: Verification)
        ensures
            outcome_is(outcome, password_standing(self@, password@)),
            replacement_is_current(outcome, password@),
    {
        service_verify(self.text.as_str(), password)
    }

    /// The stored encoding.
    pub fn as_str(&self) -> (text: &str)
        ensures
            text@ == self@,
    {
        self.text.as_str()
    }

    /// The stored encoding, taken out of the value.
    pub fn into_string(self) -> (text: String)
        ensures
            text@ == self@,
    {
        self.text
    }
}

impl Clone for PasswordHash {
    fn clone(&self) -> (copy: PasswordHash)
        ensures
            copy@ == self@,
    {
        PasswordHash { text: self.text.clone() }
    }
}

/// What a user record holds, as plain values.
pub struct UserView {
    pub id: Option<i64>,
    pub username: Seq<char>,
    pub name: Seq<char>,
    pub password_hash: Seq<char>,
    pub email: Seq<char>,
}

/// A user record. The store assigns the id when the record is first saved;
/// until then the record has none.
pub struct User {
    id: Option<i64>,
    username: LimitedString,
    name: LimitedString,
    password: PasswordHash,
    email: String,
}

impl View for User {
    type V = UserView;

    closed spec fn view(&self) -> UserView {
        UserView {
            id: self.id,
            username: self.username@,
            name: self.name@,
            password_hash: self.password@,
            email: self.email@,
        }
    }
}

impl User {
    /// A record for a new user, with the password hashed under a fresh salt.
    pub fn new(
        id: Option<i64>,
        username: LimitedString,
        password: &str,
        email: String,
        name: LimitedString,
    ) -> (user: User)
        requires
            hashable(password@),
        ensures
            user@.id == id,
            user@.username == username@,
            user@.name == name@,
            user@.email == email@,
            password_standing(user@.password_hash, password@) == Some(false),
    {
        User { id, username, name, password: PasswordHash::from_password(password), email }
    }

    /// A record as the store holds it, with the hash it was stored with.
    pub fn from_stored(
        id: Option<i64>,
        username: LimitedString,
        password: PasswordHash,
        email: String,
        name: LimitedString,
    ) -> (user: User)
        ensures
            user@ == (UserView {
                id,
                username: username@,
                name: name@,
                password_hash: password@,
                email: email@,
            }),
    {
        User { id, username, name, password, email }
    }

    /// Whether the store has given the record an id.
    pub fn has_id(&self) -> (present: bool)
        ensures
            present == self@.id is Some,
    {
        self.id.is_some()
    }

    /// The username.
    pub fn username(&self) -> (text: &str)
        ensures
            text@ == self@.username,
            fits_limit(self@.username),
    {
        self.username.as_str()
    }

    /// The id that the store assigned.
    #[must_use]
    pub fn id(&self) -> (id: i64)
        requires
            self@.id is Some,
        ensures
            Some(id) == self@.id,
    {
        self.id.unwrap()
    }

    /// The current password hash.
    #[must_use]
    pub fn password_hash(&self) -> (hash: &PasswordHash)
        ensures
            hash@ == self@.password_hash,
    {
        &self.password
    }

    /// The display name.
    #[must_use]
    pub fn name(&self) -> (text: &str)
        ensures
            text@ == self@.name,
            fits_limit(self@.name),
    {
        self.name.as_str()
    }

    /// The email address.
    pub fn email(&self) -> (text: &str)
        ensures
            text@ == self@.email,
    {
        self.email.as_str()
    }

    /// Replaces the password hash by a fresh hash of `password`; the rest of
    /// the record stays.
    pub fn set_password(&mut self, password: &str)
        requires
            hashable(password@),
        ensures
            password_standing(final(self)@.password_hash, password@) == Some(false),
            final(self)@.id == old(self)@.id,
            final(self)@.username == old(self)@.username,
            final(self)@.name == old(self)@.name,
            final(self)@.email == old(self)@.email,
    {
        self.password = PasswordHash::from_password(password);
    }

    /// Replaces the password hash by `hash`; the rest of the record stays.
    pub fn with_password_hash(self, hash: PasswordHash) -> (user: User)
        ensures
            user@ == (UserView { password_hash: hash@, ..self@ }),
    {
        User {
            id: self.id,
            username: self.username,
            name: self.name,
            password: hash,
            email: self.email,
        }
    }

    /// The value that binds a session to the password hash it was opened
    /// under: the HMAC-SHA512 tag of the stored encoding under the server's
    /// secret. It is always present.
    pub fn session_auth_hash(&self, secret_key: &[u8]) -> (binding: Option<Vec<u8>>)
        ensures
            binding is Some,
            binding->0@ == session_binding(secret_key@, self@.password_hash),
    {
        Some(keyed_digest_512(secret_key, self.password.as_str().as_bytes()))
    }
}

impl Clone for User {
    fn clone(&self) -> (copy: User)
        ensures
            copy@ == self@,
    {
        User {
            id: self.id,
            username: self.username.clone(),
            name: self.name.clone(),
            password: self.password.clone(),
            email: self.email.clone(),
        }
    }
}

/// The session binding value of a password hash under a server secret.
pub open spec fn session_binding(secret: Seq<u8>, hash: Seq<char>) -> Seq<u8> {
    hmac_sha512(secret, encode_utf8(hash))
}

/// Username and raw password of one login attempt.
pub struct UserCredentials {
    username: String,
    password: String,
}

/// What a pair of credentials holds, as plain values.
pub struct CredentialsView {
    pub username: Seq<char>,
    pub password: Seq<char>,
}

impl View for UserCredentials {
    type V = CredentialsView;

    closed spec fn view(&self) -> CredentialsView {
        CredentialsView { username: self.username@, password: self.password@ }
    }
}

impl UserCredentials {
    /// The credentials of one attempt.
    pub fn new(username: String, password: String) -> (credentials: UserCredentials)
        ensures
            credentials@ == (CredentialsView { username: username@, password: password@ }),
    {
        UserCredentials { username, password }
    }

    /// The username that was entered.
    pub fn username(&self) -> (text: &str)
        ensures
            text@ == self@.username,
    {
        self.username.as_str()
    }

    /// The password that was entered.
    pub fn password(&self) -> (text: &str)
        ensures
            text@ == self@.password,
    {
        self.password.as_str()
    }
}

impl Clone for UserCredentials {
    fn clone(&self) -> (copy: UserCredentials)
        ensures
            copy@ == self@,
    {
        UserCredentials { username: self.username.clone(), password: self.password.clone() }
    }
}

} // verus!
