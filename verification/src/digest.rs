//! Keyed digests and their hexadecimal text.

use crate::base36::digit_char;
use hmac::Hmac;
use hmac::KeyInit;
use hmac::Mac;
use sha2::Sha256;
use sha2::Sha512;
use vstd::prelude::*;

verus! {

/// The HMAC-SHA256 tag of `message` under `key`.
pub uninterp spec fn hmac_sha256(key: Seq<u8>, message: Seq<u8>) -> Seq<u8>;

/// The HMAC-SHA512 tag of `message` under `key`.
pub uninterp spec fn hmac_sha512(key: Seq<u8>, message: Seq<u8>) -> Seq<u8>;

/// Lower-case hexadecimal text of `bytes`: two digits for each byte, the high
/// half first.
pub open spec fn hex_text(bytes: Seq<u8>) -> Seq<char> {
    Seq::new(
        2 * bytes.len(),
        |i: int|
            digit_char(
                (if i % 2 == 0 {
                    bytes[i / 2] / 16
                } else {
                    bytes[i / 2] % 16
                }) as nat,
            ),
    )
}

/// `Hmac::<Sha256>` of the hmac and sha2 crates, keyed with `new_from_slice`,
/// fed with `update` and closed with `finalize`: the tag depends on key and
/// message alone and is 32 bytes long. A key of any length is accepted.
#[verifier::external_body]
pub(crate) fn keyed_digest_256(key: &[u8], message: &[u8]) -> (tag: Vec<u8>)
    ensures
        tag@ == hmac_sha256(key@, message@),
        tag@.len() == 32,
{
    let mut mac = Hmac::<Sha256>::new_from_slice(key).expect("HMAC can take key of any size");
    mac.update(message);
    mac.finalize().into_bytes().to_vec()
}

/// `Hmac::<Sha512>` of the hmac and sha2 crates, keyed with `new_from_slice`,
/// fed with `update` and closed with `finalize`: the tag depends on key and
/// message alone and is 64 bytes long. A key of any length is accepted.
#[verifier::external_body]
pub(crate) fn keyed_digest_512(key: &[u8], message: &[u8]) -> (tag: Vec<u8>)
    ensures
        tag@ == hmac_sha512(key@, message@),
        tag@.len() == 64,
{
    let mut mac = Hmac::<Sha512>::new_from_slice(key).expect("HMAC can take key of any size");
    mac.update(message);
    mac.finalize().into_bytes().to_vec()
}

/// `hex::encode`: the lower-case hexadecimal text of the bytes.
#[verifier::external_body]
pub(crate) fn hex_string(bytes: &[u8]) -> (text: String)
    ensures
        text@ == hex_text(bytes@),
{
    hex::encode(bytes)
}

} // verus!
