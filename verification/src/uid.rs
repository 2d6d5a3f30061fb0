//! The user's id as it travels in a reset link: its decimal text in
//! URL-safe base64 without padding.

use crate::text::decimal_string;
use crate::text::decimal_text;
use crate::text::lemma_parse_decimal_text;
use crate::text::parse_decimal;
use crate::text::parsed_i64;
use base64::engine::general_purpose::URL_SAFE_NO_PAD;
use base64::Engine;
use vstd::prelude::*;
use vstd::utf8::decode_utf8;
use vstd::utf8::encode_utf8;
use vstd::utf8::valid_utf8;

verus! {

/// The URL-safe base64 text of `bytes`, without padding.
pub uninterp spec fn base64url_text(bytes: Seq<u8>) -> Seq<char>;

/// The bytes that a URL-safe base64 text without padding stands for, where
/// it stands for any.
pub uninterp spec fn base64url_bytes(text: Seq<char>) -> Option<Seq<u8>>;

/// Why an id could not be read from a link.
#[derive(Debug, Clone, Copy, PartialEq, Eq, Structural)]
pub enum UidError {
    /// The text is no base64.
    Encoding,
    /// The bytes are no UTF-8 text.
    Text,
    /// The text is no number.
    Number,
}

/// What reading an id from the text of a link yields.
pub open spec fn uid_value(text: Seq<char>) -> Result<i64, UidError> {
    match base64url_bytes(text) {
        None => Err(UidError::Encoding),
        Some(bytes) => if !valid_utf8(bytes) {
            Err(UidError::Text)
        } else {
            match parsed_i64(decode_utf8(bytes)) {
                Some(id) => Ok(id),
                None => Err(UidError::Number),
            }
        },
    }
}

/// `Engine::encode` of base64 on `URL_SAFE_NO_PAD`: the text depends on the
/// bytes alone, and decoding it on the same engine gives the bytes back. The
/// call gives up only where the length of the text would not fit in a
/// `usize`, which no slice is long enough for.
#[verifier::external_body]
fn base64url_encode(bytes: &[u8]) -> (text: String)
    ensures
        text@ == base64url_text(bytes@),
        base64url_bytes(text@) == Some(bytes@),
{
    URL_SAFE_NO_PAD.encode(bytes)
}

/// `Engine::decode` of base64 on `URL_SAFE_NO_PAD`: the bytes, or nothing
/// where the text is refused, depend on the text alone.
#[verifier::external_body]
fn base64url_decode(text: &str) -> (bytes: Option<Vec<u8>>)
    ensures
        match bytes {
            Some(found) => base64url_bytes(text@) == Some(found@),
            None => base64url_bytes(text@) is None,
        },
{
    match URL_SAFE_NO_PAD.decode(text) {
        Ok(found) => Some(found),
        Err(_) => None,
    }
}

/// `String::from_utf8` of std: the text that the bytes encode, where they
/// are valid UTF-8.
#[verifier::external_body]
fn utf8_string(bytes: Vec<u8>) -> (text: Option<String>)
    ensures
        match text {
            Some(found) => valid_utf8(bytes@) && found@ == decode_utf8(bytes@),
            None => !valid_utf8(bytes@),
        },
{
    match String::from_utf8(bytes) {
        Ok(found) => Some(found),
        Err(_) => None,
    }
}

/// The id as it is written into a link. Reading the text gives the id back.
pub fn encode_uid(id: i64) -> (text: String)
    ensures
        text@ == base64url_text(encode_utf8(decimal_text(id as int))),
        uid_value(text@) == Ok::<i64, UidError>(id),
{
    let decimal = decimal_string(id);
    proof {
        vstd::utf8::encode_utf8_valid_utf8(decimal@);
        vstd::utf8::encode_utf8_decode_utf8(decimal@);
        lemma_parse_decimal_text(id);
    }
    base64url_encode(decimal.as_str().as_bytes())
}

/// The id that the text of a link stands for, or what is wrong with it.
pub fn decode_uid(b64: &str) -> (id: Result<i64, UidError>)
    ensures
        id == uid_value(b64@),
{
    let bytes = match base64url_decode(b64) {
        Some(bytes) => bytes,
        None => {
            return Err(UidError::Encoding);
        },
    };
    let text = match utf8_string(bytes) {
        Some(text) => text,
        None => {
            return Err(UidError::Text);
        },
    };
    match parse_decimal(text.as_str()) {
        Some(id) => Ok(id),
        None => Err(UidError::Number),
    }
}

} // verus!
