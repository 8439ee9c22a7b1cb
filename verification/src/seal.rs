//! Construction of the development seal.
//!
//! In development mode the proof host returns no real proof; instead the
//! seal is the 4-byte selector followed by the digest of a receipt claim
//! built from the journal alone.  The always-accepting verifier double
//! checks nothing, but the bytes must still have the exact shape the
//! on-chain verifier interface expects.

use vstd::prelude::*;
use crate::encoding::push_bytes32;
use crate::hashing::sha256;
use crate::hashing::sha256_of;

verus! {

/// Selector naming the proof system of the seal.
pub const GROTH16_SELECTOR: [u8; 4] = [0x73, 0xc4, 0x57, 0xba];

/// Domain-separation tag of the receipt's output structure.
pub const TAG_OUTPUT: [u8; 32] = [
    0x77, 0xea, 0xfe, 0xb3, 0xdf, 0xc3, 0x4a, 0x1c,
    0x6b, 0x44, 0x5d, 0x3e, 0xf2, 0x6d, 0x12, 0x32,
    0x2e, 0xa4, 0x84, 0x72, 0x40, 0x14, 0x0a, 0x9a,
    0xf8, 0x22, 0x08, 0x5f, 0x75, 0xdc, 0x4e, 0xa0,
];

/// Domain-separation tag of the receipt claim.
pub const TAG_CLAIM: [u8; 32] = [
    0xcb, 0x1f, 0xef, 0xcd, 0x6d, 0xda, 0x1c, 0x3c,
    0x74, 0x91, 0xb3, 0x09, 0x22, 0xf7, 0x0b, 0xc0,
    0x5e, 0xcf, 0xff, 0xf6, 0xb2, 0x2e, 0x73, 0x61,
    0x78, 0x06, 0x9f, 0x14, 0x51, 0x48, 0x72, 0x64,
];

/// Digest of the halted post-execution state.
pub const POST_STATE_HALTED: [u8; 32] = [
    0xa3, 0xac, 0xc2, 0x71, 0x26, 0x03, 0x80, 0x27,
    0x81, 0xa2, 0xae, 0x6d, 0x44, 0x56, 0x28, 0x6e,
    0x73, 0x79, 0x11, 0x7a, 0x74, 0xe2, 0x10, 0x88,
    0x28, 0xb6, 0xb4, 0x8e, 0x5a, 0xab, 0x3e, 0x0b,
];

/// Thirty-two zero bytes.
pub open spec fn spec_zeros32() -> Seq<u8> {
    Seq::new(32, |i: int| 0u8)
}

/// The two-field length tag of the output structure (little-endian u64).
pub open spec fn spec_output_len_tag() -> Seq<u8> {
    seq![2u8, 0u8, 0u8, 0u8, 0u8, 0u8, 0u8, 0u8]
}

/// The exit codes and five-field length tag closing the receipt claim.
pub open spec fn spec_claim_suffix() -> Seq<u8> {
    seq![
        0u8, 0u8, 0u8, 0u8,
        0u8, 0u8, 0u8, 0u8,
        5u8, 0u8, 0u8, 0u8, 0u8, 0u8, 0u8, 0u8,
    ]
}

/// The digest of the output structure built from a journal.
pub open spec fn spec_output_digest(journal: Seq<u8>) -> Seq<u8> {
    sha256_of(TAG_OUTPUT@ + sha256_of(journal) + spec_zeros32() + spec_output_len_tag())
}

/// The digest of the receipt claim built from a journal.
pub open spec fn spec_claim_digest(journal: Seq<u8>) -> Seq<u8> {
    sha256_of(
        TAG_CLAIM@ + spec_zeros32() + spec_zeros32() + POST_STATE_HALTED@ + spec_output_digest(
            journal,
        ) + spec_claim_suffix(),
    )
}

/// The development seal of a journal: selector, then claim digest.
pub open spec fn spec_mock_seal(journal: Seq<u8>) -> Seq<u8> {
    GROTH16_SELECTOR@ + spec_claim_digest(journal)
}

/// Build the development seal for a journal.
pub fn build_mock_seal(journal: &Vec<u8>) -> (r: Vec<u8>)
    ensures
        r@ == spec_mock_seal(journal@),
        r@.len() == 36,
{
    let journal_sha256 = sha256(journal);
    let zeros = [0u8; 32];
    proof {
        assert(zeros@ =~= spec_zeros32());
    }

    let mut output_preimage: Vec<u8> = Vec::new();
    push_bytes32(&mut output_preimage, &TAG_OUTPUT);
    push_bytes32(&mut output_preimage, &journal_sha256);
    push_bytes32(&mut output_preimage, &zeros);
    output_preimage.push(0x02);
    let mut i: usize = 0;
    proof {
        assert(output_preimage@ =~= TAG_OUTPUT@ + sha256_of(journal@) + spec_zeros32() + seq![2u8]
            + Seq::new(0, |j: int| 0u8));
    }
    while i < 7
        invariant
            i <= 7,
            output_preimage@ == TAG_OUTPUT@ + sha256_of(journal@) + spec_zeros32() + seq![2u8]
                + Seq::new(i as nat, |j: int| 0u8),
        decreases 7 - i,
    {
        output_preimage.push(0);
        i = i + 1;
        proof {
            assert(output_preimage@ =~= TAG_OUTPUT@ + sha256_of(journal@) + spec_zeros32() + seq![
                2u8,
            ] + Seq::new(i as nat, |j: int| 0u8));
        }
    }
    proof {
        assert(output_preimage@ =~= TAG_OUTPUT@ + sha256_of(journal@) + spec_zeros32()
            + spec_output_len_tag());
    }
    let output_digest = sha256(&output_preimage);

    let mut claim_preimage: Vec<u8> = Vec::new();
    push_bytes32(&mut claim_preimage, &TAG_CLAIM);
    push_bytes32(&mut claim_preimage, &zeros);
    push_bytes32(&mut claim_preimage, &zeros);
    push_bytes32(&mut claim_preimage, &POST_STATE_HALTED);
    push_bytes32(&mut claim_preimage, &output_digest);
    let mut j: usize = 0;
    proof {
        assert(claim_preimage@ =~= TAG_CLAIM@ + spec_zeros32() + spec_zeros32()
            + POST_STATE_HALTED@ + spec_output_digest(journal@) + Seq::new(0, |m: int| 0u8));
    }
    while j < 8
        invariant
            j <= 8,
            claim_preimage@ == TAG_CLAIM@ + spec_zeros32() + spec_zeros32() + POST_STATE_HALTED@
                + spec_output_digest(journal@) + Seq::new(j as nat, |m: int| 0u8),
        decreases 8 - j,
    {
        claim_preimage.push(0);
        j = j + 1;
        proof {
            assert(claim_preimage@ =~= TAG_CLAIM@ + spec_zeros32() + spec_zeros32()
                + POST_STATE_HALTED@ + spec_output_digest(journal@) + Seq::new(
                j as nat,
                |m: int| 0u8,
            ));
        }
    }
    claim_preimage.push(0x05);
    let mut m: usize = 0;
    proof {
        assert(claim_preimage@ =~= TAG_CLAIM@ + spec_zeros32() + spec_zeros32()
            + POST_STATE_HALTED@ + spec_output_digest(journal@) + Seq::new(8, |x: int| 0u8) + seq![
            5u8,
        ] + Seq::new(0, |x: int| 0u8));
    }
    while m < 7
        invariant
            m <= 7,
            claim_preimage@ == TAG_CLAIM@ + spec_zeros32() + spec_zeros32() + POST_STATE_HALTED@
                + spec_output_digest(journal@) + Seq::new(8, |x: int| 0u8) + seq![5u8] + Seq::new(
                m as nat,
                |x: int| 0u8,
            ),
        decreases 7 - m,
    {
        claim_preimage.push(0);
        m = m + 1;
        proof {
            assert(claim_preimage@ =~= TAG_CLAIM@ + spec_zeros32() + spec_zeros32()
                + POST_STATE_HALTED@ + spec_output_digest(journal@) + Seq::new(8, |x: int| 0u8)
                + seq![5u8] + Seq::new(m as nat, |x: int| 0u8));
        }
    }
    proof {
        assert(claim_preimage@ =~= TAG_CLAIM@ + spec_zeros32() + spec_zeros32()
            + POST_STATE_HALTED@ + spec_output_digest(journal@) + spec_claim_suffix());
    }
    let claim_digest = sha256(&claim_preimage);

    let mut seal: Vec<u8> = Vec::new();
    seal.push(GROTH16_SELECTOR[0]);
    seal.push(GROTH16_SELECTOR[1]);
    seal.push(GROTH16_SELECTOR[2]);
    seal.push(GROTH16_SELECTOR[3]);
    push_bytes32(&mut seal, &claim_digest);
    proof {
        assert(seal@ =~= spec_mock_seal(journal@));
    }
    seal
}

} // verus!
