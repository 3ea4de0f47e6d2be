//! The authenticated cipher, AES-256-GCM. Sealing appends a 16-byte
//! authentication tag; opening verifies it and recovers the plaintext.
//! Both directions are named as functions of key, nonce and input, and the
//! seal contract records that opening a sealed message returns the message.

use vstd::prelude::*;

verus! {

/// The largest plaintext AES-GCM sealing accepts, in bytes.
pub const MAX_PLAINTEXT_LEN: u64 = 0x10_0000_0000;

/// What AES-256-GCM sealing returns: ciphertext plus tag, a function of key,
/// nonce and plaintext alone.
pub uninterp spec fn gcm_enc(key: Seq<u8>, nonce: Seq<u8>, pt: Seq<u8>) -> Seq<u8>;

/// What AES-256-GCM opening returns: the recovered plaintext, or `None` when
/// the ciphertext is rejected; a function of key, nonce and ciphertext alone.
pub uninterp spec fn gcm_dec(key: Seq<u8>, nonce: Seq<u8>, ct: Seq<u8>) -> Option<Seq<u8>>;

/// Relies on aes_gcm::Aes256Gcm (KeyInit::new_from_slice, Aead::encrypt):
/// sealing succeeds whenever the plaintext is within the cipher's size bound,
/// the result is the plaintext's length plus the 16-byte tag, and opening the
/// result under the same key and nonce returns the plaintext.
#[verifier::external_body]
pub(crate) fn aead_seal(key: &Vec<u8>, nonce: &Vec<u8>, pt: &Vec<u8>) -> (r: Option<Vec<u8>>)
    requires
        key@.len() == 32,
        nonce@.len() == 12,
    ensures
        r matches Some(ct) ==> ct@ == gcm_enc(key@, nonce@, pt@) && ct@.len() == pt@.len() + 16
            && gcm_dec(key@, nonce@, ct@) == Some(pt@),
        pt@.len() <= MAX_PLAINTEXT_LEN ==> r is Some,
{
    let cipher = match <aes_gcm::Aes256Gcm as aes_gcm::KeyInit>::new_from_slice(key.as_slice()) {
        Ok(c) => c,
        Err(_) => return None,
    };
    let nonce = aes_gcm::Nonce::from_slice(nonce.as_slice());
    aes_gcm::aead::Aead::encrypt(&cipher, nonce, pt.as_slice()).ok()
}

/// Relies on aes_gcm::Aes256Gcm (KeyInit::new_from_slice, Aead::decrypt):
/// opening is deterministic in key, nonce and ciphertext, and fails exactly
/// when the cipher rejects the ciphertext (too short, over the size bound, or
/// authentication-tag mismatch).
#[verifier::external_body]
pub(crate) fn aead_open(key: &Vec<u8>, nonce: &Vec<u8>, ct: &Vec<u8>) -> (r: Option<Vec<u8>>)
    requires
        key@.len() == 32,
        nonce@.len() == 12,
    ensures
        r matches Some(pt) ==> gcm_dec(key@, nonce@, ct@) == Some(pt@),
        r is None ==> gcm_dec(key@, nonce@, ct@) is None,
{
    let cipher = match <aes_gcm::Aes256Gcm as aes_gcm::KeyInit>::new_from_slice(key.as_slice()) {
        Ok(c) => c,
        Err(_) => return None,
    };
    let nonce = aes_gcm::Nonce::from_slice(nonce.as_slice());
    aes_gcm::aead::Aead::decrypt(&cipher, nonce, ct.as_slice()).ok()
}

} // verus!
