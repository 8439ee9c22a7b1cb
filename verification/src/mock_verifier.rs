//! The always-accepting verifier double.
//!
//! It satisfies the verifier interface — a seal, a program identifier and a
//! journal digest — and accepts every request unconditionally.  It exists
//! to exercise the state machine without a live proof backend and provides
//! no cryptographic security: it must never stand in a production verifier
//! slot.

use vstd::prelude::*;

verus! {

/// A verifier that accepts every seal.
pub struct MockRisc0Verifier;

impl MockRisc0Verifier {
    /// Accept any seal for any program identifier and journal digest.
    pub fn verify(_seal: &Vec<u8>, _image_id: &[u8; 32], _journal_sha256: &[u8; 32]) -> (r: bool)
        ensures
            r,
    {
        true
    }
}

} // verus!
