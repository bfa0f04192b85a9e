use vstd::prelude::*;
use digest::Digest;
use crate::error::BridgeError;

verus! {

/// The Keccak-256 digest of a byte string (32 bytes).
pub uninterp spec fn keccak256_of(data: Seq<u8>) -> Seq<u8>;

/// Whether a byte string is well-formed UTF-8.
pub uninterp spec fn is_utf8(data: Seq<u8>) -> bool;

/// Relies on sha3::Keccak256 through digest::Digest: `finalize` yields the
/// 32-byte Keccak-256 digest of the bytes passed to `update`, which depends
/// on those bytes alone.
#[verifier::external_body]
pub(crate) fn keccak256(data: &[u8]) -> (r: [u8; 32])
    ensures
        r@ == keccak256_of(data@),
{
    let mut hasher = sha3::Keccak256::new();
    hasher.update(data);
    hasher.finalize().into()
}

/// Relies on std::str::from_utf8: it succeeds exactly on well-formed UTF-8.
#[verifier::external_body]
fn utf8_valid(data: &[u8]) -> (r: bool)
    ensures
        r == is_utf8(data@),
{
    std::str::from_utf8(data).is_ok()
}

/// Hashes an asset selector to the 32-byte selector hash: Keccak-256 over the
/// selector's UTF-8 bytes, with no prefix. Bytes that are not UTF-8 are an
/// `Encoding` error.
pub fn selector_hash(selector: &[u8]) -> (r: Result<[u8; 32], BridgeError>)
    ensures
        r is Ok <==> is_utf8(selector@),
        r is Err ==> r->Err_0 == BridgeError::Encoding,
        r is Ok ==> r->Ok_0@ == keccak256_of(selector@),
{
    if !utf8_valid(selector) {
        return Err(BridgeError::Encoding);
    }
    Ok(keccak256(selector))
}

} // verus!
