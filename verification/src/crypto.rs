//! Decoding and decryption primitives, done by the `base64`, `sha2`,
//! `aes-gcm`, `aes` and `ctr` crates, and UTF-8 decoding by std.

use vstd::prelude::*;
use vstd::utf8::{valid_utf8, decode_utf8};
use sha2::Digest;
use base64::Engine;
use aes_gcm::aead::{Aead, KeyInit};
use ctr::cipher::{KeyIvInit, StreamCipher};

verus! {

/// The SHA-256 digest of `data`.
pub uninterp spec fn sha256(data: Seq<u8>) -> Seq<u8>;

/// The bytes that standard (padded) base64 text decodes to; none when it is
/// not valid standard base64.
pub uninterp spec fn base64_standard(text: Seq<char>) -> Option<Seq<u8>>;

/// The plaintext that AES-256-GCM decryption of `ciphertext` (with its
/// authentication tag at the end) gives under `key` and `nonce`, with no
/// associated data; none when authentication fails.
pub uninterp spec fn aes256_gcm_open(key: Seq<u8>, nonce: Seq<u8>, ciphertext: Seq<u8>) -> Option<
    Seq<u8>,
>;

/// `data` XOR-ed with the AES-256 counter-mode keystream (128-bit big-endian
/// counter) for `key` and initial block `iv`.
pub uninterp spec fn aes256_ctr_apply(key: Seq<u8>, iv: Seq<u8>, data: Seq<u8>) -> Seq<u8>;

/// `sha2::Sha256::digest`: the contract claims the value named `sha256` and
/// that the digest has 32 bytes.
#[verifier::external_body]
pub(crate) fn sha256_digest(data: &[u8]) -> (r: Vec<u8>)
    ensures
        r@ == sha256(data@),
        r@.len() == 32,
{
    sha2::Sha256::digest(data).to_vec()
}

/// `base64::engine::general_purpose::STANDARD.decode`: the contract claims
/// only the value named `base64_standard`, none standing for its error.
#[verifier::external_body]
pub(crate) fn base64_decode(text: &str) -> (r: Option<Vec<u8>>)
    ensures
        match r {
            Some(b) => base64_standard(text@) == Some(b@),
            None => base64_standard(text@) is None,
        },
{
    base64::engine::general_purpose::STANDARD.decode(text).ok()
}

/// `aes_gcm::Aes256Gcm` built with `new_from_slice` on the 32-byte key, then
/// `decrypt` with the 12-byte nonce (`Nonce::from_slice`, which panics on
/// another length, hence the `requires`): the contract claims only the value
/// named `aes256_gcm_open`, none standing for a failed decryption.
#[verifier::external_body]
pub(crate) fn aes256_gcm_decrypt(key: &[u8], nonce: &[u8], ciphertext: &[u8]) -> (r: Option<Vec<u8>>)
    requires
        key@.len() == 32,
        nonce@.len() == 12,
    ensures
        match r {
            Some(p) => aes256_gcm_open(key@, nonce@, ciphertext@) == Some(p@),
            None => aes256_gcm_open(key@, nonce@, ciphertext@) is None,
        },
{
    let cipher = aes_gcm::Aes256Gcm::new_from_slice(key).ok()?;
    cipher.decrypt(aes_gcm::Nonce::from_slice(nonce), ciphertext).ok()
}

/// `ctr::Ctr128BE<aes::Aes256>` built with `new` from the 32-byte key and the
/// 16-byte initial block, then `apply_keystream` on a copy of `data`: the
/// contract claims the value named `aes256_ctr_apply`, and that the length is
/// kept, as the keystream is applied in place.
#[verifier::external_body]
pub(crate) fn aes256_ctr(key: &[u8], iv: &[u8], data: &[u8]) -> (r: Vec<u8>)
    requires
        key@.len() == 32,
        iv@.len() == 16,
    ensures
        r@ == aes256_ctr_apply(key@, iv@, data@),
        r@.len() == data@.len(),
{
    let mut buf = data.to_vec();
    let mut cipher = ctr::Ctr128BE::<aes::Aes256>::new(key.into(), iv.into());
    cipher.apply_keystream(&mut buf);
    buf
}

/// `String::from_utf8`: the text the bytes encode when they are valid UTF-8,
/// none otherwise.
#[verifier::external_body]
pub(crate) fn string_from_utf8(bytes: Vec<u8>) -> (r: Option<String>)
    ensures
        match r {
            Some(s) => valid_utf8(bytes@) && s@ == decode_utf8(bytes@),
            None => !valid_utf8(bytes@),
        },
{
    String::from_utf8(bytes).ok()
}

} // verus!
