//! The digest and MAC primitives. Each digest is a fixed-size byte string
//! determined by the input alone; the values themselves are named, not
//! restated, and the standard test vectors hold them to the real algorithms.

use vstd::prelude::*;

verus! {

pub uninterp spec fn md5_of(data: Seq<u8>) -> Seq<u8>;

pub uninterp spec fn sha256_of(data: Seq<u8>) -> Seq<u8>;

pub uninterp spec fn sha512_of(data: Seq<u8>) -> Seq<u8>;

pub uninterp spec fn blake3_of(data: Seq<u8>) -> Seq<u8>;

pub uninterp spec fn hmac_sha256_of(key: Seq<u8>, msg: Seq<u8>) -> Seq<u8>;

/// Relies on md5::compute: a 16-byte digest determined by the input alone.
#[verifier::external_body]
pub(crate) fn md5_bytes(data: &Vec<u8>) -> (r: Vec<u8>)
    ensures
        r@ == md5_of(data@),
        r@.len() == 16,
{
    md5::compute(data.as_slice()).0.to_vec()
}

/// Relies on sha2::Sha256::digest: a 32-byte digest determined by the input
/// alone.
#[verifier::external_body]
pub(crate) fn sha256_bytes(data: &Vec<u8>) -> (r: Vec<u8>)
    ensures
        r@ == sha256_of(data@),
        r@.len() == 32,
{
    <sha2::Sha256 as sha2::Digest>::digest(data.as_slice()).to_vec()
}

/// Relies on sha2::Sha512::digest: a 64-byte digest determined by the input
/// alone.
#[verifier::external_body]
pub(crate) fn sha512_bytes(data: &Vec<u8>) -> (r: Vec<u8>)
    ensures
        r@ == sha512_of(data@),
        r@.len() == 64,
{
    <sha2::Sha512 as sha2::Digest>::digest(data.as_slice()).to_vec()
}

/// Relies on blake3::hash: a 32-byte digest determined by the input alone.
#[verifier::external_body]
pub(crate) fn blake3_bytes(data: &Vec<u8>) -> (r: Vec<u8>)
    ensures
        r@ == blake3_of(data@),
        r@.len() == 32,
{
    blake3::hash(data.as_slice()).as_bytes().to_vec()
}

/// Relies on hmac::Hmac<Sha256> (new_from_slice, update, finalize):
/// HMAC-SHA-256 accepts a key of any length and returns a 32-byte tag
/// determined by key and message alone.
#[verifier::external_body]
pub(crate) fn hmac_sha256_bytes(key: &Vec<u8>, msg: &Vec<u8>) -> (r: Vec<u8>)
    ensures
        r@ == hmac_sha256_of(key@, msg@),
        r@.len() == 32,
{
    let mut mac = <hmac::Hmac<sha2::Sha256> as hmac::Mac>::new_from_slice(key.as_slice())
        .expect("HMAC accepts keys of any length");
    hmac::Mac::update(&mut mac, msg.as_slice());
    hmac::Mac::finalize(mac).into_bytes().to_vec()
}

} // verus!
