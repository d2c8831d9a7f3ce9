use vstd::prelude::*;
use vstd::bytes::{spec_u128_from_le_bytes, u128_from_le_bytes};

use crate::hexkey::{hex_encode, hex_of};

verus! {

/// What the md5 digest of a byte sequence is. The digest function itself is
/// the outside crate's; this name stands for its result, which depends on
/// the input bytes alone.
pub uninterp spec fn md5_of(bytes: Seq<u8>) -> Seq<u8>;

/// Relies on `md5::compute` (RFC 1321): a 16-byte digest that is a pure
/// function of the input bytes.
#[verifier::external_body]
pub(crate) fn md5_digest(bytes: &Vec<u8>) -> (r: Vec<u8>)
    ensures
        r@ == md5_of(bytes@),
        r@.len() == 16,
{
    md5::compute(bytes.as_slice()).0.to_vec()
}

/// A byte sequence's fingerprint in the store's key form: the md5 digest
/// read as one little-endian 128-bit integer.
pub open spec fn spec_fingerprint_key(bytes: Seq<u8>) -> u128 {
    spec_u128_from_le_bytes(md5_of(bytes))
}

/// Computes the fingerprint of a byte sequence in the store's key form.
pub fn fingerprint_key(bytes: &Vec<u8>) -> (k: u128)
    ensures
        k == spec_fingerprint_key(bytes@),
{
    let d = md5_digest(bytes);
    u128_from_le_bytes(d.as_slice())
}

/// Renders the fingerprint of a byte sequence as 32 lowercase hexadecimal
/// characters, its canonical external form.
pub fn fingerprint_hex(bytes: &Vec<u8>) -> (r: String)
    ensures
        r@ == hex_of(md5_of(bytes@)),
        r@.len() == 32,
{
    let d = md5_digest(bytes);
    hex_encode(&d)
}

} // verus!
