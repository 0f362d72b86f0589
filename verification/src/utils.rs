//! The checksum that a message header carries.

use sha2::{Digest, Sha256};
use vstd::prelude::*;

verus! {

/// How many bytes a checksum has.
pub const CHECKSUM_SIZE: usize = 4;

/// The SHA-256 digest of `data`.
pub uninterp spec fn sha256(data: Seq<u8>) -> Seq<u8>;

/// The checksum of `data`: the first four bytes of the SHA-256 digest of the
/// SHA-256 digest of `data`.
pub open spec fn checksum_of(data: Seq<u8>) -> Seq<u8> {
    Seq::new(CHECKSUM_SIZE as nat, |i: int| sha256(sha256(data))[i])
}

/// `Digest::digest` of sha2's `Sha256`: the 32 bytes of the digest of `data`.
/// The digest is a function of the bytes alone; nothing more is claimed of
/// it.
#[verifier::external_body]
fn sha256_digest(data: &[u8]) -> (out: [u8; 32])
    ensures
        out@ == sha256(data@),
{
    Sha256::digest(data).into()
}

/// Computes the Bitcoin checksum of `data`.
pub fn checksum(data: &[u8]) -> (sum: [u8; 4])
    ensures
        sum@ == checksum_of(data@),
{
    let once = sha256_digest(data);
    let twice = sha256_digest(once.as_slice());
    let sum = [twice[0], twice[1], twice[2], twice[3]];
    assert(sum@ =~= checksum_of(data@));
    sum
}

} // verus!
