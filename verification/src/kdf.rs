//! Memory-hard key derivation. A per-operation salt string is generated
//! fresh for every encryption; the derived key is a function of the master
//! key and the salt string alone, named by `kdf`.

use vstd::prelude::*;

verus! {

/// What Argon2 key derivation (default parameters) returns for a master key
/// and a salt string: `None` when the salt string is rejected, otherwise the
/// derived key bytes.
pub uninterp spec fn kdf(master: Seq<u8>, salt: Seq<char>) -> Option<Seq<u8>>;

/// Relies on argon2::password_hash::SaltString::generate: a fresh random
/// salt string of recommended length, in the b64 alphabet. Every such string
/// is accepted by SaltString::from_b64 and decodes to 16 bytes, within the
/// bounds Argon2::hash_password accepts, so derivation from it succeeds for
/// any 32-byte master key.
#[verifier::external_body]
pub(crate) fn generate_salt() -> (r: String)
    ensures
        forall|m: Seq<u8>| m.len() == 32 ==> (#[trigger] kdf(m, r@)) is Some,
{
    argon2::password_hash::SaltString::generate(&mut aes_gcm::aead::OsRng).to_string()
}

/// Relies on argon2::password_hash::SaltString::from_b64 and
/// Argon2::default().hash_password: the hash is deterministic in the master
/// key and the salt string (the parameters are fixed defaults), its output is
/// 32 bytes, and derivation fails exactly when the salt string is rejected
/// (bad length, bad character, or decoded salt out of Argon2's bounds).
#[verifier::external_body]
pub(crate) fn derive_key(master: &Vec<u8>, salt: &str) -> (r: Option<Vec<u8>>)
    requires
        master@.len() == 32,
    ensures
        r matches Some(k) ==> kdf(master@, salt@) == Some(k@) && k@.len() == 32,
        r is None ==> kdf(master@, salt@) is None,
{
    let salt = match argon2::password_hash::SaltString::from_b64(salt) {
        Ok(s) => s,
        Err(_) => return None,
    };
    let argon = argon2::Argon2::default();
    let hash = match argon2::PasswordHasher::hash_password(&argon, master.as_slice(), &salt) {
        Ok(h) => h,
        Err(_) => return None,
    };
    let out = hash.hash?;
    Some(out.as_bytes().to_vec())
}

} // verus!
