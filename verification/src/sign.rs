//! The request signature: lowercase hex of an HMAC-SHA256 tag computed
//! over exactly the canonical bytes that are transmitted.

use vstd::prelude::*;
use crate::encoding::{hex_of, to_hex, all_ascii, lemma_hex_ascii, ascii_string_of};

verus! {

/// Names the HMAC-SHA256 tag of a key and a message; the tag is a function
/// of those bytes alone.
pub uninterp spec fn hmac_sha256_of(key: Seq<u8>, msg: Seq<u8>) -> Seq<u8>;

/// Relies on hmac's `Hmac<Sha256>`: `new_from_slice` accepts a key of any
/// length (its source returns `Ok` unconditionally), `update` feeds the
/// message, and `finalize` produces the 32-byte tag.
#[verifier::external_body]
fn hmac_sha256(key: &[u8], msg: &[u8]) -> (r: Vec<u8>)
    ensures
        r@ == hmac_sha256_of(key@, msg@),
        r@.len() == 32,
{
    let mut mac = <hmac::Hmac<sha2::Sha256> as hmac::KeyInit>::new_from_slice(key).expect(
        "HMAC accepts keys of any length",
    );
    hmac::Mac::update(&mut mac, msg);
    hmac::Mac::finalize(mac).into_bytes().to_vec()
}

/// The signature attached to a signed request: the lowercase hex digits of
/// the HMAC-SHA256 tag of `message` under `secret`.
pub open spec fn signature_of(secret: Seq<u8>, message: Seq<u8>) -> Seq<u8> {
    hex_of(hmac_sha256_of(secret, message))
}

/// Computes the signature bytes for a canonical message.
pub fn signature_bytes(secret: &[u8], message: &[u8]) -> (r: Vec<u8>)
    ensures
        r@ == signature_of(secret@, message@),
        all_ascii(r@),
        r@.len() == 64,
{
    let tag = hmac_sha256(secret, message);
    let r = to_hex(tag.as_slice());
    proof {
        lemma_hex_ascii(tag@);
        crate::encoding::lemma_hex_len(tag@);
    }
    r
}

/// Computes the signature as a hex string.
pub fn signature_hex(secret: &[u8], message: &[u8]) -> (r: String)
    ensures
        r@ == signature_of(secret@, message@).map_values(|b: u8| b as char),
{
    let bytes = signature_bytes(secret, message);
    ascii_string_of(bytes)
}

} // verus!
