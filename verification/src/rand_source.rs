//! The cryptographically secure random source.

use vstd::prelude::*;

verus! {

/// Relies on the operating-system random source `aes_gcm::aead::OsRng`:
/// `RngCore::fill_bytes` fills the whole buffer, so the result has exactly
/// the requested length. Nothing is claimed of the bytes themselves.
#[verifier::external_body]
pub(crate) fn random_fill(n: usize) -> (r: Vec<u8>)
    ensures
        r@.len() == n,
{
    let mut bytes = vec![0u8; n];
    aes_gcm::aead::rand_core::RngCore::fill_bytes(&mut aes_gcm::aead::OsRng, &mut bytes);
    bytes
}

} // verus!
