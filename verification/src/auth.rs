//! Request signing for authenticated endpoints: an HMAC-SHA256 over the
//! timestamp, the method, the versioned path and the body, in lowercase hex.

use crate::text::{decimal, decimal_string, hex_lower, is_lower_hex_char};
use hmac::{Hmac, Mac};
use sha2::Sha256;
use vstd::prelude::*;
use vstd::string::StringExecFns;

verus! {

/// The HMAC-SHA256 tag of `message` under `key`.
pub uninterp spec fn hmac_sha256(key: Seq<u8>, message: Seq<u8>) -> Seq<u8>;

/// Computes `Hmac::<Sha256>::new_from_slice(key)`, `update(message)`,
/// `finalize()` of the `hmac` crate. Claimed: the tag is the named
/// `hmac_sha256` of the key and message bytes (the same inputs always give the
/// same tag) and is 32 bytes long, the output size of SHA-256.
/// `new_from_slice` accepts a key of any length (it hashes long keys and pads
/// short ones), so the `expect` never fires.
#[verifier::external_body]
fn hmac_sha256_tag(key: &[u8], message: &[u8]) -> (tag: Vec<u8>)
    ensures
        tag@ == hmac_sha256(key@, message@),
        tag@.len() == 32,
{
    let mut mac = <Hmac<Sha256> as Mac>::new_from_slice(key).expect("hmac accepts any key length");
    mac.update(message);
    mac.finalize().into_bytes().to_vec()
}

/// Computes `hex::encode(bytes)`. Claimed: two lowercase hex digits per byte,
/// high half first, as the `hex` crate's `HEX_CHARS_LOWER` table gives them.
#[verifier::external_body]
fn hex_encode(bytes: &[u8]) -> (s: String)
    ensures
        s@ == hex_lower(bytes@),
{
    hex::encode(bytes)
}

/// The text that is signed: `{timestamp}{method}/v2{path}{body}`, where the
/// path carries the query string and the body is the JSON body or empty.
pub open spec fn signing_payload(
    timestamp: nat,
    method: Seq<char>,
    path: Seq<char>,
    body: Seq<char>,
) -> Seq<char> {
    decimal(timestamp) + method + seq!['/', 'v', '2'] + path + body
}

/// The signature of a request: the lowercase hex HMAC-SHA256 of the UTF-8
/// signing payload under the UTF-8 secret.
pub open spec fn signature(
    secret: Seq<char>,
    timestamp: nat,
    method: Seq<char>,
    path: Seq<char>,
    body: Seq<char>,
) -> Seq<char> {
    hex_lower(
        hmac_sha256(
            vstd::utf8::encode_utf8(secret),
            vstd::utf8::encode_utf8(signing_payload(timestamp, method, path, body)),
        ),
    )
}

/// Hex notation is twice as long as its bytes and uses only lowercase hex digits.
pub proof fn lemma_hex_lower_shape(bytes: Seq<u8>)
    ensures
        hex_lower(bytes).len() == 2 * bytes.len(),
        forall|i: int| 0 <= i < hex_lower(bytes).len() ==> is_lower_hex_char(#[trigger] hex_lower(bytes)[i]),
{
    assert forall|i: int| 0 <= i < hex_lower(bytes).len() implies is_lower_hex_char(#[trigger] hex_lower(bytes)[i]) by {
        let b = bytes[i / 2];
        assert(b / 16 < 16);
        assert(b % 16 < 16);
    }
}

/// Builds the signing payload for a request.
pub fn signing_payload_text(timestamp: u64, method: &str, path: &str, body: &str) -> (payload: String)
    ensures
        payload@ == signing_payload(timestamp as nat, method@, path@, body@),
{
    let mut payload = decimal_string(timestamp);
    payload.append(method);
    payload.append("/v2");
    payload.append(path);
    payload.append(body);
    proof {
        reveal_strlit("/v2");
    }
    assert(payload@ =~= signing_payload(timestamp as nat, method@, path@, body@));
    payload
}

/// Creates the hex-encoded HMAC-SHA256 signature for a request.
/// The signed string is `{timestamp}{method}/v2{path}{body}` where `path`
/// includes the query string and `body` is the compact JSON body or empty.
/// The result is always 64 lowercase hex digits.
pub fn sign(secret: &str, timestamp: u64, method: &str, path: &str, body: &str) -> (sig: String)
    ensures
        sig@ == signature(secret@, timestamp as nat, method@, path@, body@),
        sig@.len() == 64,
        forall|i: int| 0 <= i < 64 ==> is_lower_hex_char(#[trigger] sig@[i]),
{
    let payload = signing_payload_text(timestamp, method, path, body);
    let tag = hmac_sha256_tag(secret.as_bytes(), payload.as_str().as_bytes());
    let sig = hex_encode(tag.as_slice());
    proof {
        lemma_hex_lower_shape(tag@);
    }
    sig
}

} // verus!
