//! The failure taxonomy of the toolkit. Decryption reports a single uniform
//! `Authentication` failure whatever its internal stage rejected, so that the
//! error cannot act as an oracle for which check failed.

use vstd::prelude::*;

verus! {

#[derive(Clone, Copy, Debug, PartialEq, Eq, Structural)]
pub enum CryptoError {
    /// Malformed hex input, a key of the wrong length, or a malformed salt.
    Validation,
    /// Key derivation failed.
    Kdf,
    /// Cipher setup or encryption failed.
    Cipher,
    /// Decryption failed; the cause is deliberately not distinguished.
    Authentication,
}

} // verus!
