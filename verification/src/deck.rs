//! Deterministic deck derivation.
//!
//! Card number `index` of session `session_id` is read off the keccak256
//! digest of the two identifiers: the first four digest bytes pick the
//! colour, the next four the value.  The mapping is pure, so every consumer
//! (state machine and proof evaluators alike) reproduces it bit for bit.

use vstd::prelude::*;
use crate::encoding::push_u32_be;
use crate::encoding::spec_u32_from_be_bytes;
use crate::encoding::spec_u32_to_be_bytes;
use crate::encoding::u32_from_be;
use crate::hashing::keccak256;
use crate::hashing::keccak256_of;

verus! {

/// The 8-byte preimage of the deck seed: both identifiers big-endian.
pub open spec fn spec_deck_seed_input(session_id: u32, index: u32) -> Seq<u8> {
    spec_u32_to_be_bytes(session_id) + spec_u32_to_be_bytes(index)
}

/// The 32-byte deck seed for one `(session, index)` pair.
pub open spec fn spec_deck_seed(session_id: u32, index: u32) -> Seq<u8> {
    keccak256_of(spec_deck_seed_input(session_id, index))
}

/// The card derived for `(session_id, index)`: a function of the two
/// arguments alone.
pub open spec fn spec_derive_card(session_id: u32, index: u32) -> (u32, u32) {
    let seed = spec_deck_seed(session_id, index);
    let colour_raw = spec_u32_from_be_bytes(seed[0], seed[1], seed[2], seed[3]);
    let value_raw = spec_u32_from_be_bytes(seed[4], seed[5], seed[6], seed[7]);
    let colour = colour_raw % 5;
    let value = if colour == 4 {
        (13 + (value_raw % 2)) as u32
    } else {
        value_raw % 13
    };
    (colour, value)
}

/// Compute the 32-byte deck seed for `(session_id, index)`.
fn deck_seed(session_id: u32, index: u32) -> (r: [u8; 32])
    ensures
        r@ == spec_deck_seed(session_id, index),
{
    let mut data: Vec<u8> = Vec::new();
    push_u32_be(&mut data, session_id);
    push_u32_be(&mut data, index);
    proof {
        assert(data@ =~= spec_deck_seed_input(session_id, index));
    }
    keccak256(&data)
}

/// Derive a single card deterministically.  The result is a pure function of
/// `(session_id, index)`: two calls with the same arguments return the same
/// pair.  The pair always satisfies the card invariant: colour at most 4, a
/// wild colour carries value 13 or 14, a suit colour a value of at most 12.
pub fn derive_card(session_id: u32, index: u32) -> (r: (u32, u32))
    ensures
        r == spec_derive_card(session_id, index),
        r.0 <= 4,
        r.0 == 4 ==> r.1 == 13 || r.1 == 14,
        r.0 != 4 ==> r.1 <= 12,
{
    let seed = deck_seed(session_id, index);
    let colour_raw = u32_from_be(seed[0], seed[1], seed[2], seed[3]);
    let value_raw = u32_from_be(seed[4], seed[5], seed[6], seed[7]);
    let colour = colour_raw % 5;
    let value = if colour == 4 {
        13 + (value_raw % 2)
    } else {
        value_raw % 13
    };
    (colour, value)
}

} // verus!
