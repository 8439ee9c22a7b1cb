//! The two hash domains of the protocol.
//!
//! Hand commitments use keccak256; the journal-integrity check that binds a
//! proof's public output to the verifier uses sha256.  Keeping the two
//! domains distinct means a commitment can never be confused with a journal
//! digest.

use vstd::prelude::*;
use tiny_keccak::Hasher;
use sha2::Digest;

verus! {

/// The keccak256 digest of a byte sequence.  The digest is a function of the
/// input bytes alone; its value is not described further here.
pub uninterp spec fn keccak256_of(data: Seq<u8>) -> Seq<u8>;

/// The sha256 digest of a byte sequence.  The digest is a function of the
/// input bytes alone; its value is not described further here.
pub uninterp spec fn sha256_of(data: Seq<u8>) -> Seq<u8>;

/// Relies on tiny_keccak's `Keccak::v256`: a 32-byte keccak256 digest that
/// depends on the input bytes alone.
#[verifier::external_body]
pub(crate) fn keccak256(data: &Vec<u8>) -> (r: [u8; 32])
    ensures
        r@ == keccak256_of(data@),
{
    let mut k = tiny_keccak::Keccak::v256();
    k.update(data.as_slice());
    let mut out = [0u8; 32];
    k.finalize(&mut out);
    out
}

/// Relies on sha2's `Sha256`: a 32-byte sha256 digest that depends on the
/// input bytes alone.
#[verifier::external_body]
pub(crate) fn sha256(data: &Vec<u8>) -> (r: [u8; 32])
    ensures
        r@ == sha256_of(data@),
{
    let mut h = sha2::Sha256::new();
    h.update(data.as_slice());
    let out = h.finalize();
    let mut r = [0u8; 32];
    r.copy_from_slice(&out);
    r
}

/// The hand commitment: the keccak256 digest of the hand bytes followed by
/// the 32-byte salt.
pub open spec fn spec_commit_hash(hand: Seq<u8>, salt: Seq<u8>) -> Seq<u8> {
    keccak256_of(hand + salt)
}

/// Compute the commitment binding `hand` under `salt`.
pub fn commit_hash(hand: &Vec<u8>, salt: &[u8; 32]) -> (r: [u8; 32])
    ensures
        r@ == spec_commit_hash(hand@, salt@),
{
    let mut data: Vec<u8> = Vec::new();
    crate::encoding::push_bytes(&mut data, hand);
    crate::encoding::push_bytes32(&mut data, salt);
    proof {
        assert(data@ =~= hand@ + salt@);
    }
    keccak256(&data)
}

} // verus!
