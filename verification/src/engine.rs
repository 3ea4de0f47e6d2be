//! The cryptography engine: a 32-byte master secret, authenticated
//! encryption keyed through per-call Argon2 derivation, multi-algorithm
//! hashing, secure randomness and message authentication.
//!
//! `decrypt_model` is the specification of the whole decryption protocol.
//! `encrypt` guarantees that the envelope it returns decrypts, under the same
//! master key, to exactly the plaintext that was sealed: the round trip is
//! part of its contract.

use vstd::prelude::*;
use vstd::string::StrSliceExecFns;
use vstd::utf8::{decode_utf8, encode_utf8, encode_utf8_decode_utf8, encode_utf8_valid_utf8, valid_utf8};

use crate::aead::{aead_open, aead_seal, gcm_dec, MAX_PLAINTEXT_LEN};
use crate::clock::{clock_elapsed_ms, clock_now};
use crate::digests::{
    blake3_bytes, blake3_of, hmac_sha256_bytes, hmac_sha256_of, md5_bytes, md5_of, sha256_bytes,
    sha256_of, sha512_bytes, sha512_of,
};
use crate::errors::CryptoError;
use crate::hexfmt::{
    bytes_to_hex, hex_of, hex_to_bytes, hex_val, is_hex, is_lower_hex, lemma_hex_of_round_trip,
};
use crate::kdf::{derive_key, generate_salt, kdf};
use crate::rand_source::random_fill;
use crate::text::utf8_to_string;

verus! {

/// The output of an encrypt call and the input to a matching decrypt call.
/// All binary values are hex strings; the salt string is self-describing and
/// carries the derivation parameters.
#[derive(Clone, Debug)]
pub struct EncryptedData {
    pub encrypted: String,
    pub nonce: String,
    pub salt: String,
}

/// Four digests of one byte sequence, hex-encoded, with the wall-clock
/// duration of the batch in milliseconds.
#[derive(Clone, Debug)]
pub struct HashResult {
    pub md5: String,
    pub sha256: String,
    pub sha512: String,
    pub blake3: String,
    pub duration_ms: u64,
}

pub struct CryptoEngine {
    master_key: Vec<u8>,
}

/// What decrypting an envelope under a master key yields: the plaintext when
/// the salt derives a key, nonce and ciphertext are well-formed hex, the
/// cipher authenticates the ciphertext, and the recovered bytes are valid
/// text; nothing otherwise.
pub open spec fn decrypt_model(
    master: Seq<u8>,
    ct_hex: Seq<char>,
    nonce_hex: Seq<char>,
    salt: Seq<char>,
) -> Option<Seq<char>> {
    match kdf(master, salt) {
        Some(key) => if is_hex(nonce_hex) && hex_val(nonce_hex).len() == 12 && is_hex(ct_hex) {
            match gcm_dec(key, hex_val(nonce_hex), hex_val(ct_hex)) {
                Some(pt) => if valid_utf8(pt) {
                    Some(decode_utf8(pt))
                } else {
                    None
                },
                None => None,
            }
        } else {
            None
        },
        None => None,
    }
}

/// Key fidelity: an engine built from a lowercase 32-byte hex key exports
/// exactly that key. `with_key` gives such an engine `key_view() ==
/// hex_val(k)`, and `get_master_key` returns `hex_of(key_view())`, which this
/// law shows is `k` itself.
pub proof fn lemma_key_fidelity(e: CryptoEngine, k: Seq<char>)
    requires
        is_lower_hex(k),
        hex_val(k).len() == 32,
        e.key_view() == hex_val(k),
    ensures
        hex_of(e.key_view()) == k,
{
    crate::hexfmt::lemma_hex_val_round_trip(k);
}

impl CryptoEngine {
    #[verifier::type_invariant]
    spec fn wf(self) -> bool {
        self.master_key@.len() == 32
    }

    /// The master secret this engine holds.
    pub closed spec fn key_view(self) -> Seq<u8> {
        self.master_key@
    }

    /// A fresh engine with a master key drawn from the secure random source.
    pub fn new() -> (r: Self)
        ensures
            r.key_view().len() == 32,
    {
        let master_key = random_fill(32);
        CryptoEngine { master_key }
    }

    /// An engine over an existing master key, given hex-encoded; rejected
    /// unless it is valid hex that decodes to exactly 32 bytes.
    pub fn with_key(key: String) -> (r: Result<Self, CryptoError>)
        ensures
            r matches Ok(e) ==> is_hex(key@) && hex_val(key@).len() == 32 && e.key_view()
                == hex_val(key@),
            r is Err <==> !(is_hex(key@) && hex_val(key@).len() == 32),
            r matches Err(e) ==> e == CryptoError::Validation,
    {
        let master_key = match hex_to_bytes(key.as_str()) {
            Some(b) => b,
            None => {
                return Err(CryptoError::Validation);
            },
        };
        if master_key.len() != 32 {
            return Err(CryptoError::Validation);
        }
        Ok(CryptoEngine { master_key })
    }

    /// The master key, hex-encoded.
    pub fn get_master_key(&self) -> (r: String)
        ensures
            r@ == hex_of(self.key_view()),
    {
        bytes_to_hex(&self.master_key)
    }

    /// Seal a plaintext: generate a fresh salt, derive a one-use key from the
    /// master key with it, generate a fresh 12-byte nonce, and encrypt under
    /// the authenticated cipher. The envelope returned decrypts, under this
    /// engine's master key, to exactly the plaintext sealed here.
    pub fn encrypt(&self, plaintext: String) -> (r: Result<EncryptedData, CryptoError>)
        ensures
            r matches Ok(env) ==> decrypt_model(
                self.key_view(),
                env.encrypted@,
                env.nonce@,
                env.salt@,
            ) == Some(plaintext@),
            r matches Ok(env) ==> hex_val(env.nonce@).len() == 12 && hex_val(env.encrypted@).len()
                == encode_utf8(plaintext@).len() + 16,
            r matches Err(e) ==> e == CryptoError::Cipher,
            encode_utf8(plaintext@).len() <= MAX_PLAINTEXT_LEN ==> r is Ok,
    {
        proof {
            use_type_invariant(self);
        }
        let salt = generate_salt();
        let key = match derive_key(&self.master_key, salt.as_str()) {
            Some(k) => k,
            None => {
                // unreachable: a generated salt always derives
                return Err(CryptoError::Cipher);
            },
        };
        let nonce = random_fill(12);
        let pt_bytes = plaintext.as_str().as_bytes_vec();
        let ct = match aead_seal(&key, &nonce, &pt_bytes) {
            Some(c) => c,
            None => {
                return Err(CryptoError::Cipher);
            },
        };
        let env = EncryptedData {
            encrypted: bytes_to_hex(&ct),
            nonce: bytes_to_hex(&nonce),
            salt,
        };
        proof {
            lemma_hex_of_round_trip(ct@);
            lemma_hex_of_round_trip(nonce@);
            encode_utf8_valid_utf8(plaintext@);
            encode_utf8_decode_utf8(plaintext@);
        }
        Ok(env)
    }

    /// Open an envelope. Returns the plaintext exactly when the whole
    /// decryption protocol accepts it (see `decrypt_model`); every failure is
    /// reported as the one uniform `Authentication` error, whatever stage
    /// rejected the envelope.
    pub fn decrypt(&self, encrypted_data: EncryptedData) -> (r: Result<String, CryptoError>)
        ensures
            r matches Ok(s) ==> decrypt_model(
                self.key_view(),
                encrypted_data.encrypted@,
                encrypted_data.nonce@,
                encrypted_data.salt@,
            ) == Some(s@),
            r matches Err(e) ==> decrypt_model(
                self.key_view(),
                encrypted_data.encrypted@,
                encrypted_data.nonce@,
                encrypted_data.salt@,
            ) is None && e == CryptoError::Authentication,
    {
        proof {
            use_type_invariant(self);
        }
        let key = match derive_key(&self.master_key, encrypted_data.salt.as_str()) {
            Some(k) => k,
            None => {
                return Err(CryptoError::Authentication);
            },
        };
        let nonce = match hex_to_bytes(encrypted_data.nonce.as_str()) {
            Some(n) => n,
            None => {
                return Err(CryptoError::Authentication);
            },
        };
        if nonce.len() != 12 {
            return Err(CryptoError::Authentication);
        }
        let ct = match hex_to_bytes(encrypted_data.encrypted.as_str()) {
            Some(c) => c,
            None => {
                return Err(CryptoError::Authentication);
            },
        };
        let pt = match aead_open(&key, &nonce, &ct) {
            Some(p) => p,
            None => {
                return Err(CryptoError::Authentication);
            },
        };
        match utf8_to_string(pt) {
            Some(s) => {
                proof {
                    encode_utf8_valid_utf8(s@);
                    encode_utf8_decode_utf8(s@);
                }
                Ok(s)
            },
            None => Err(CryptoError::Authentication),
        }
    }

    /// All four digests of a byte sequence, hex-encoded, with the batch's
    /// measured duration.
    pub fn hash_bytes(&self, data: &Vec<u8>) -> (r: HashResult)
        ensures
            r.md5@ == hex_of(md5_of(data@)),
            r.sha256@ == hex_of(sha256_of(data@)),
            r.sha512@ == hex_of(sha512_of(data@)),
            r.blake3@ == hex_of(blake3_of(data@)),
    {
        let start = clock_now();
        let sha256_raw = sha256_bytes(data);
        let sha256 = bytes_to_hex(&sha256_raw);
        let sha512_raw = sha512_bytes(data);
        let sha512 = bytes_to_hex(&sha512_raw);
        let blake3_raw = blake3_bytes(data);
        let blake3 = bytes_to_hex(&blake3_raw);
        let md5_raw = md5_bytes(data);
        let md5 = bytes_to_hex(&md5_raw);
        let duration_ms: u64 = clock_elapsed_ms(&start);
        HashResult { md5, sha256, sha512, blake3, duration_ms }
    }

    /// All four digests of a text's bytes.
    pub fn hash_data(&self, data: String) -> (r: HashResult)
        ensures
            r.md5@ == hex_of(md5_of(encode_utf8(data@))),
            r.sha256@ == hex_of(sha256_of(encode_utf8(data@))),
            r.sha512@ == hex_of(sha512_of(encode_utf8(data@))),
            r.blake3@ == hex_of(blake3_of(encode_utf8(data@))),
    {
        let bytes = data.as_str().as_bytes_vec();
        self.hash_bytes(&bytes)
    }

    /// Exactly `length` bytes from the secure random source.
    pub fn random_bytes(&self, length: u32) -> (r: Vec<u8>)
        ensures
            r@.len() == length,
    {
        random_fill(length as usize)
    }

    /// The hex encoding of `length` bytes from the secure random source.
    pub fn random_hex(&self, length: u32) -> (r: String)
        ensures
            r@.len() == 2 * length,
            is_lower_hex(r@),
            exists|b: Seq<u8>| b.len() == length && r@ == hex_of(b),
    {
        let bytes = self.random_bytes(length);
        proof {
            lemma_hex_of_round_trip(bytes@);
        }
        let r = bytes_to_hex(&bytes);
        proof {
            assert(bytes@.len() == length && r@ == hex_of(bytes@));
        }
        r
    }

    /// HMAC-SHA-256 of a message under a hex-encoded key; rejected exactly
    /// when the key is not valid hex.
    pub fn hmac_sha256(&self, message: String, key: String) -> (r: Result<String, CryptoError>)
        ensures
            r matches Ok(m) ==> is_hex(key@) && m@ == hex_of(
                hmac_sha256_of(hex_val(key@), encode_utf8(message@)),
            ),
            r is Err <==> !is_hex(key@),
            r matches Err(e) ==> e == CryptoError::Validation,
    {
        let key_bytes = match hex_to_bytes(key.as_str()) {
            Some(b) => b,
            None => {
                return Err(CryptoError::Validation);
            },
        };
        let msg_bytes = message.as_str().as_bytes_vec();
        let mac = hmac_sha256_bytes(&key_bytes, &msg_bytes);
        Ok(bytes_to_hex(&mac))
    }
}

} // verus!
