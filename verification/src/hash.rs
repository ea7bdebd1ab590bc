//! The content hash: SHA-512/256.

use vstd::prelude::*;
use sha2::Digest;
use crate::bytes::H256;

verus! {

/// The SHA-512/256 digest of the bytes, as `sha2` computes it.
pub uninterp spec fn sha512_256(data: Seq<u8>) -> Seq<u8>;

/// `sha2::Sha512_256::digest`: the 32 bytes of the digest of `data`.
#[verifier::external_body]
fn digest(data: &[u8]) -> (res: [u8; 32])
    ensures
        res@ == sha512_256(data@),
{
    sha2::Sha512_256::digest(data).into()
}

/// The content hash of the bytes.
pub fn digest_bytes(data: &[u8]) -> (res: H256)
    ensures
        res@ == sha512_256(data@),
{
    H256 { bytes: digest(data) }
}

} // verus!
