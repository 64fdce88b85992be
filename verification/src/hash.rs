//! The one cryptographic primitive the verification protocol leans on:
//! SHA-256, named abstractly and computed by the target ledger's hasher.

use vstd::prelude::*;

verus! {

/// The SHA-256 digest (32 bytes) of `data`. The digest is a function of the
/// input bytes alone; no further structure is assumed of it.
pub uninterp spec fn spec_sha256(data: Seq<u8>) -> Seq<u8>;

/// Relies on solana_program::hash::hashv (SHA-256): hashing one slice
/// digests exactly those bytes, and Hash::to_bytes is the 32-byte digest.
#[verifier::external_body]
pub fn sha256_32(data: &Vec<u8>) -> (r: [u8; 32])
    ensures
        r@ == spec_sha256(data@),
{
    solana_program::hash::hashv(&[data.as_slice()]).to_bytes()
}

} // verus!
