//! Request signing: HMAC-SHA-256 over the canonical query string,
//! hex-encoded with lowercase digits.

use vstd::prelude::*;

verus! {

/// The HMAC-SHA-256 tag of the UTF-8 encoding of `msg` keyed by the
/// UTF-8 encoding of `key`: a fixed function of the two arguments, too
/// long to spell out here.
pub uninterp spec fn spec_hmac_sha256(key: Seq<char>, msg: Seq<char>) -> Seq<u8>;

/// The lowercase hex digit for a nibble.
pub open spec fn spec_hex_char(n: u8) -> char
    recommends
        n < 16,
{
    if n < 10 {
        ((n + 48) as char)
    } else {
        ((n + 87) as char)
    }
}

/// Lowercase hex encoding: two digits per byte, high nibble first.
pub open spec fn spec_hex(bytes: Seq<u8>) -> Seq<char> {
    Seq::new(
        bytes.len() * 2,
        |i: int|
            if i % 2 == 0 {
                spec_hex_char(bytes[i / 2] >> 4u8)
            } else {
                spec_hex_char(bytes[i / 2] & 0xfu8)
            },
    )
}

/// The signature a request carries: the hex form of the HMAC tag.
pub open spec fn spec_signature(secret: Seq<char>, query: Seq<char>) -> Seq<char> {
    spec_hex(spec_hmac_sha256(secret, query))
}

/// Relies on hmac's `Hmac<Sha256>` (`new_from_slice`, `update`,
/// `finalize`): the returned tag is the 32-byte HMAC-SHA-256 of `msg`
/// under `key`, a function of the two strings alone; HMAC accepts keys
/// of any length, so `new_from_slice` never fails.
#[verifier::external_body]
fn hmac_sha256(key: &str, msg: &str) -> (r: Vec<u8>)
    ensures
        r@ == spec_hmac_sha256(key@, msg@),
        r@.len() == 32,
{
    let mut mac = <hmac::Hmac<sha2::Sha256> as hmac::KeyInit>::new_from_slice(key.as_bytes())
        .expect("HMAC accepts keys of any length");
    hmac::Mac::update(&mut mac, msg.as_bytes());
    hmac::Mac::finalize(mac).into_bytes().to_vec()
}

/// Relies on hex::encode: lowercase hex, two digits per byte, high
/// nibble first, exactly `spec_hex`.
#[verifier::external_body]
fn hex_encode(bytes: &[u8]) -> (r: String)
    ensures
        r@ == spec_hex(bytes@),
{
    hex::encode(bytes)
}

/// Hex form of the HMAC-SHA-256 tag of `query` under `secret`: the
/// signature appended to every time-sensitive exchange request.
pub fn sign_query(secret: &str, query: &str) -> (r: String)
    ensures
        r@ == spec_signature(secret@, query@),
        r@.len() == 64,
{
    let tag = hmac_sha256(secret, query);
    hex_encode(tag.as_slice())
}

/// The signature is a function of the secret and the query alone: two
/// signings of equal queries under equal secrets give equal signatures.
pub proof fn lemma_signature_deterministic(
    secret1: Seq<char>,
    query1: Seq<char>,
    secret2: Seq<char>,
    query2: Seq<char>,
)
    requires
        secret1 == secret2,
        query1 == query2,
    ensures
        spec_signature(secret1, query1) == spec_signature(secret2, query2),
{
}

} // verus!
