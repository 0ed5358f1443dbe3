//! Trusted bindings to the cryptographic hash primitives that the vault
//! builds on. Each digest is given an uninterpreted name: the contracts of
//! the rest of the crate speak of these names exactly.

use vstd::prelude::*;

verus! {

/// The HMAC-SHA1 tag of `message` under `key`: a function of the two byte
/// sequences alone, 20 bytes long.
pub uninterp spec fn hmac_sha1_of(key: Seq<u8>, message: Seq<u8>) -> Seq<u8>;

/// The SHA-256 digest of `data`: a function of the input bytes alone,
/// 32 bytes long.
pub uninterp spec fn sha256_of(data: Seq<u8>) -> Seq<u8>;

/// Relies on `hmac::Hmac<sha1::Sha1>` (HMAC per RFC 2104 over SHA-1): the tag
/// depends on the key and message bytes alone and is 20 bytes long; a key of
/// any length is accepted, so `new_from_slice` cannot fail.
#[verifier::external_body]
pub(crate) fn hmac_sha1(key: &[u8], message: &[u8]) -> (r: Vec<u8>)
    ensures
        r@ == hmac_sha1_of(key@, message@),
        r@.len() == 20,
{
    let mut mac = <hmac::Hmac<sha1::Sha1> as hmac::Mac>::new_from_slice(key)
        .expect("HMAC accepts keys of any length");
    hmac::Mac::update(&mut mac, message);
    hmac::Mac::finalize(mac).into_bytes().to_vec()
}

/// Relies on `secret_toolkit::crypto::sha_256` (SHA-256): the digest depends
/// on the input bytes alone and is 32 bytes long.
#[verifier::external_body]
pub(crate) fn sha_256(data: &[u8]) -> (r: Vec<u8>)
    ensures
        r@ == sha256_of(data@),
        r@.len() == 32,
{
    secret_toolkit::crypto::sha_256(data).to_vec()
}

} // verus!
