//! Password-reset tokens: a timestamp and a truncated signature that binds
//! it to one user and to the password hash that the user had when the token
//! was made. Nothing is stored: a token is checked from its own text, the
//! user's current hash and the server's secret.

use crate::base36::base36_text;
use crate::base36::decoded;
use crate::base36::is_lower_digit;
use crate::base36::lemma_decode_encode;
use crate::base36::lemma_text_length_u64;
use crate::base36::lemma_text_shape;
use crate::base36::MAX_DIGITS;
use crate::base36::Base36;
use crate::digest::hex_string;
use crate::digest::hex_text;
use crate::digest::hmac_sha256;
use crate::digest::keyed_digest_256;
use crate::text::constant_time_eq;
use crate::text::decimal_string;
use crate::text::decimal_text;
use crate::user::User;
use chrono::Utc;
use vstd::prelude::*;
use vstd::string::StrSliceExecFns;
use vstd::string::StringExecFns;
use vstd::utf8::encode_utf8;

verus! {

/// The number of hexadecimal digits of the signature that a token carries.
pub const SIGNATURE_DIGITS: usize = 20;

/// What is signed: the user's id in decimal, the stored encoding of the
/// password hash, and the timestamp in decimal, with nothing between them.
pub open spec fn signed_material(id: i64, hash: Seq<char>, ts: i64) -> Seq<char> {
    decimal_text(id as int) + hash + decimal_text(ts as int)
}

/// The signature part of a token: the first digits of the hexadecimal text of
/// the HMAC-SHA256 tag of the material under the secret.
pub open spec fn signature_text(secret: Seq<u8>, material: Seq<char>) -> Seq<char> {
    hex_text(hmac_sha256(secret, encode_utf8(material))).subrange(0, SIGNATURE_DIGITS as int)
}

/// The token of a user with this id and hash, made at `ts` under `secret`:
/// the timestamp in radix 36, a hyphen, and the signature.
pub open spec fn token_text(id: i64, hash: Seq<char>, secret: Seq<u8>, ts: i64) -> Seq<char> {
    base36_text((ts as u64) as nat) + seq!['-'] + signature_text(
        secret,
        signed_material(id, hash, ts),
    )
}

/// The place of the first hyphen in a text; its length where it has none.
pub open spec fn first_hyphen(s: Seq<char>) -> nat
    decreases s.len(),
{
    if s.len() == 0 {
        0
    } else if s[0] == '-' {
        0
    } else {
        1 + first_hyphen(s.drop_first())
    }
}

/// The timestamp that a token carries: what stands before its first hyphen,
/// read as a radix-36 numeral. A text without a hyphen carries none.
pub open spec fn embedded_timestamp(token: Seq<char>) -> Option<u64> {
    if first_hyphen(token) < token.len() {
        decoded(token.subrange(0, first_hyphen(token) as int))
    } else {
        None
    }
}

/// Whether `token` is good at the time `now` for a user with this id and
/// hash: it carries a timestamp that is not after `now` and at most `timeout`
/// seconds before it, and it is the very token made at that timestamp.
pub open spec fn token_valid(
    id: i64,
    hash: Seq<char>,
    secret: Seq<u8>,
    token: Seq<char>,
    timeout: i64,
    now: i64,
) -> bool {
    match embedded_timestamp(token) {
        Some(ts) => {
            &&& ts <= now
            &&& now - ts <= timeout
            &&& token == token_text(id, hash, secret, ts as i64)
        },
        None => false,
    }
}

/// The first hyphen stands where a hyphen follows a stretch without one.
pub proof fn lemma_first_hyphen(s: Seq<char>, i: int)
    requires
        0 <= i <= s.len(),
        forall|j: int| 0 <= j < i ==> s[j] != '-',
        i < s.len() ==> s[i] == '-',
    ensures
        first_hyphen(s) == i,
    decreases i,
{
    if i > 0 {
        let rest = s.drop_first();
        assert forall|j: int| 0 <= j < i - 1 implies rest[j] != '-' by {
            assert(rest[j] == s[j + 1]);
        }
        lemma_first_hyphen(rest, i - 1);
    }
}

/// The first hyphen does not stand in a stretch without one.
pub proof fn lemma_hyphen_after(s: Seq<char>, i: int)
    requires
        0 <= i <= s.len(),
        forall|j: int| 0 <= j < i ==> s[j] != '-',
    ensures
        first_hyphen(s) >= i,
    decreases i,
{
    if i > 0 {
        let rest = s.drop_first();
        assert forall|j: int| 0 <= j < i - 1 implies rest[j] != '-' by {
            assert(rest[j] == s[j + 1]);
        }
        assert(s[0] != '-');
        lemma_hyphen_after(rest, i - 1);
    }
}

/// In a token made at `ts` the first hyphen follows the digits of `ts`, of
/// which there are at most `MAX_DIGITS`, and the token carries `ts`.
pub proof fn lemma_minted_timestamp(id: i64, hash: Seq<char>, secret: Seq<u8>, ts: i64)
    ensures
        first_hyphen(token_text(id, hash, secret, ts)) == base36_text((ts as u64) as nat).len(),
        first_hyphen(token_text(id, hash, secret, ts)) <= MAX_DIGITS,
        embedded_timestamp(token_text(id, hash, secret, ts)) == Some(ts as u64),
{
    lemma_text_length_u64(ts as u64);
    let stamp = base36_text((ts as u64) as nat);
    let token = token_text(id, hash, secret, ts);
    lemma_text_shape((ts as u64) as nat);
    lemma_decode_encode(ts as u64);
    assert forall|j: int| 0 <= j < stamp.len() implies token[j] != '-' by {
        assert(token[j] == stamp[j]);
        assert(is_lower_digit(stamp[j]));
    }
    assert(token[stamp.len() as int] == '-');
    lemma_first_hyphen(token, stamp.len() as int);
    assert(token.subrange(0, stamp.len() as int) =~= stamp);
}

/// A token made at a time that is not negative is good from then on until
/// `timeout` seconds have passed, and so at the moment it is made.
pub proof fn lemma_fresh_token_verifies(
    id: i64,
    hash: Seq<char>,
    secret: Seq<u8>,
    ts: i64,
    timeout: i64,
    now: i64,
)
    requires
        0 <= ts <= now,
        now - ts <= timeout,
    ensures
        token_valid(id, hash, secret, token_text(id, hash, secret, ts), timeout, now),
{
    lemma_minted_timestamp(id, hash, secret, ts);
}

/// A token whose timestamp lies more than `timeout` seconds back is not good,
/// whatever else it holds.
pub proof fn lemma_expired_token_rejected(
    id: i64,
    hash: Seq<char>,
    secret: Seq<u8>,
    token: Seq<char>,
    timeout: i64,
    now: i64,
)
    requires
        embedded_timestamp(token) is Some,
        now - embedded_timestamp(token)->0 > timeout,
    ensures
        !token_valid(id, hash, secret, token, timeout, now),
{
}

/// A token whose timestamp lies after `now` is not good, whatever else it
/// holds.
pub proof fn lemma_future_token_rejected(
    id: i64,
    hash: Seq<char>,
    secret: Seq<u8>,
    token: Seq<char>,
    timeout: i64,
    now: i64,
)
    requires
        embedded_timestamp(token) is Some,
        embedded_timestamp(token)->0 > now,
    ensures
        !token_valid(id, hash, secret, token, timeout, now),
{
}

/// A token that is good under one password hash is not good under another
/// hash whose signature at the token's timestamp differs.
pub proof fn lemma_token_bound_to_hash(
    id: i64,
    old_hash: Seq<char>,
    new_hash: Seq<char>,
    secret: Seq<u8>,
    token: Seq<char>,
    timeout: i64,
    now: i64,
)
    requires
        token_valid(id, old_hash, secret, token, timeout, now),
        signature_text(
            secret,
            signed_material(id, old_hash, embedded_timestamp(token)->0 as i64),
        ) != signature_text(
            secret,
            signed_material(id, new_hash, embedded_timestamp(token)->0 as i64),
        ),
    ensures
        !token_valid(id, new_hash, secret, token, timeout, now),
{
    let ts = embedded_timestamp(token)->0 as i64;
    let head = base36_text((ts as u64) as nat) + seq!['-'];
    let old_sig = signature_text(secret, signed_material(id, old_hash, ts));
    let new_sig = signature_text(secret, signed_material(id, new_hash, ts));
    if token_valid(id, new_hash, secret, token, timeout, now) {
        assert(head + old_sig == head + new_sig);
        assert((head + old_sig).subrange(head.len() as int, (head + old_sig).len() as int)
            =~= old_sig);
        assert((head + new_sig).subrange(head.len() as int, (head + new_sig).len() as int)
            =~= new_sig);
    }
}

/// `Utc::now` and `DateTime::timestamp` of chrono: the seconds since the Unix
/// epoch on this machine's clock. The clock is read as a time that has passed
/// since the epoch, so the value is never negative; no more is claimed of it.
#[verifier::external_body]
fn unix_now() -> (now: i64)
    ensures
        now >= 0,
{
    Utc::now().timestamp()
}

/// Where the first hyphen of a text stands, if it has one and no more than
/// `MAX_DIGITS` characters stand before it: the search ends there, since no
/// timestamp is longer.
fn find_hyphen(s: &str) -> (place: Option<usize>)
    ensures
        match place {
            Some(i) => i < s@.len() && first_hyphen(s@) == i,
            None => first_hyphen(s@) == s@.len() || first_hyphen(s@) > MAX_DIGITS,
        },
{
    let length: usize = s.unicode_len();
    let mut i: usize = 0;
    while i < length
        invariant
            length == s@.len(),
            i <= length,
            forall|j: int| 0 <= j < i ==> s@[j] != '-',
        decreases length - i,
    {
        if i > MAX_DIGITS {
            proof {
                lemma_hyphen_after(s@, i as int);
            }
            return None;
        }
        if s.get_char(i) == '-' {
            proof {
                lemma_first_hyphen(s@, i as int);
            }
            return Some(i);
        }
        i = i + 1;
    }
    proof {
        lemma_first_hyphen(s@, i as int);
    }
    None
}

/// Makes and checks reset tokens; it holds no state.
#[derive(Debug, Copy, Clone)]
pub struct ResetToken;

impl ResetToken {
    /// A token for `user`, made now.
    pub fn make_token(&self, user: &User, secret: &[u8]) -> (token: String)
        requires
            user@.id is Some,
        ensures
            exists|ts: i64|
                ts >= 0 && token@ == token_text(user@.id->0, user@.password_hash, secret@, ts),
    {
        let ts: i64 = unix_now();
        self.make_token_with_timestamp(user, secret, ts)
    }

    /// The token for `user` made at `ts`.
    pub fn make_token_with_timestamp(&self, user: &User, secret: &[u8], ts: i64) -> (token:
        String)
        requires
            user@.id is Some,
        ensures
            token@ == token_text(user@.id->0, user@.password_hash, secret@, ts),
    {
        let ts_b36 = Base36::encode(#[verifier::truncate] (ts as u64));
        let mut data = decimal_string(user.id());
        data.append(user.password_hash().as_str());
        let ts_text = decimal_string(ts);
        data.append(ts_text.as_str());
        let full = keyed_digest_256(secret, data.as_str().as_bytes());
        let hex = hex_string(full.as_slice());
        let short = hex.as_str().substring_char(0, SIGNATURE_DIGITS);
        let mut token = ts_b36;
        token.append("-");
        token.append(short);
        proof {
            reveal_strlit("-");
            assert("-"@ =~= seq!['-']);
        }
        token
    }

    /// Whether `token` is good for `user` now.
    pub fn check_token(&self, user: &User, token: &str, secret: &[u8], timeout_secs: i64) -> (valid:
        bool)
        requires
            user@.id is Some,
        ensures
            exists|now: i64|
                now >= 0 && valid == token_valid(
                    user@.id->0,
                    user@.password_hash,
                    secret@,
                    token@,
                    timeout_secs,
                    now,
                ),
    {
        let now: i64 = unix_now();
        self.check_token_at(user, token, secret, timeout_secs, now)
    }

    /// Whether `token` is good for `user` at the time `now`.
    pub fn check_token_at(
        &self,
        user: &User,
        token: &str,
        secret: &[u8],
        timeout_secs: i64,
        now: i64,
    ) -> (valid: bool)
        requires
            user@.id is Some,
        ensures
            valid == token_valid(
                user@.id->0,
                user@.password_hash,
                secret@,
                token@,
                timeout_secs,
                now,
            ),
    {
        let place: usize = match find_hyphen(token) {
            Some(place) => place,
            None => {
                proof {
                    if embedded_timestamp(token@) is Some {
                        lemma_minted_timestamp(
                            user@.id->0,
                            user@.password_hash,
                            secret@,
                            embedded_timestamp(token@)->0 as i64,
                        );
                    }
                }
                return false;
            },
        };
        let ts_b36 = token.substring_char(0, place);
        let stamp: u64 = match Base36::decode(ts_b36) {
            Some(stamp) => stamp,
            None => {
                return false;
            },
        };
        if now < 0 || stamp > now as u64 {
            return false;
        }
        let ts: i64 = stamp as i64;
        let age: i64 = now - ts;
        if age > timeout_secs {
            return false;
        }
        let expected = self.make_token_with_timestamp(user, secret, ts);
        constant_time_eq(expected.as_str(), token)
    }
}

} // verus!
