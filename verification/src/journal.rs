//! The four proof-journal codecs.
//!
//! Every proof carries a fixed-layout public journal; the state machine
//! recomputes the journal it expects from on-chain state, hashes it with
//! sha256 and hands that digest to the external verifier together with the
//! program identifier of the claimed proof kind.
//!
//! | Proof       | Bytes | Layout                                                     |
//! |-------------|-------|------------------------------------------------------------|
//! | Hand-commit | 36    | session_id be32, hand_hash                                 |
//! | Move        | 74    | session_id, old_hash, new_hash, played_colour,             |
//! |             |       | played_value, wild_colour, active_colour, is_winner, is_uno|
//! | Draw        | 72    | session_id, old_hash, new_hash, draw_count be32            |
//! | Declare-UNO | 36    | session_id, hand_hash                                      |

use vstd::prelude::*;
use crate::encoding::push_bytes32;
use crate::encoding::push_u32_be;
use crate::encoding::read_bytes32;
use crate::encoding::spec_u32_from_be_bytes;
use crate::encoding::spec_u32_to_be_bytes;
use crate::encoding::lemma_u32_be_round_trip;
use crate::encoding::u32_from_be;

verus! {

/// Program identifier of the hand-commitment proof.
pub const ZK_UNO_IMAGE_ID: [u8; 32] = [
    0xb7, 0x21, 0x64, 0x47, 0x95, 0xbe, 0xce, 0x69,
    0xd9, 0x5e, 0x97, 0x52, 0x12, 0xf2, 0xd9, 0x6c,
    0xfb, 0x9d, 0xf1, 0x21, 0x27, 0xe8, 0xb3, 0x65,
    0x38, 0xab, 0xa6, 0x57, 0xb7, 0xcc, 0x3c, 0x08,
];

/// Program identifier of the move proof.
pub const ZK_UNO_MOVE_IMAGE_ID: [u8; 32] = [
    0x01, 0x84, 0xe7, 0x52, 0x61, 0x29, 0xc9, 0x3e,
    0x6a, 0x6c, 0xfa, 0x22, 0xe8, 0x26, 0x95, 0x4d,
    0xe3, 0xf5, 0x98, 0x57, 0x4d, 0xd5, 0xb9, 0x27,
    0x92, 0x93, 0xdb, 0x3a, 0x7f, 0x74, 0xc9, 0x62,
];

/// Program identifier of the draw proof.
pub const ZK_UNO_DRAW_IMAGE_ID: [u8; 32] = [
    0xca, 0xa5, 0xc9, 0x75, 0x2b, 0x08, 0x63, 0x13,
    0x2d, 0x41, 0xac, 0x6a, 0x21, 0xc5, 0xb3, 0x71,
    0x5e, 0x3a, 0xc3, 0x19, 0x49, 0x6d, 0x99, 0x36,
    0xfe, 0x24, 0xb7, 0x65, 0x92, 0xca, 0x70, 0x67,
];

/// Program identifier of the declare-UNO proof.
pub const ZK_UNO_UNO_IMAGE_ID: [u8; 32] = [
    0xf3, 0x15, 0x81, 0x27, 0xcf, 0xb8, 0x13, 0x68,
    0x58, 0x4b, 0x80, 0x1e, 0xaa, 0x5c, 0x5e, 0x1b,
    0x88, 0x9b, 0x5b, 0x4c, 0x27, 0xed, 0x06, 0x0d,
    0xa6, 0xed, 0xfc, 0x3b, 0xcb, 0x02, 0xb3, 0x73,
];

/// The 36-byte hand-commit (and declare-UNO) journal.
pub open spec fn spec_commit_journal(session_id: u32, hand_hash: Seq<u8>) -> Seq<u8> {
    spec_u32_to_be_bytes(session_id) + hand_hash
}

/// The 74-byte move journal.
pub open spec fn spec_move_journal(
    session_id: u32,
    old_hash: Seq<u8>,
    new_hash: Seq<u8>,
    played_colour: u8,
    played_value: u8,
    wild_colour: u8,
    active_colour: u8,
    is_winner: bool,
    is_uno: bool,
) -> Seq<u8> {
    spec_u32_to_be_bytes(session_id) + old_hash + new_hash + seq![
        played_colour,
        played_value,
        wild_colour,
        active_colour,
        if is_winner {
            1u8
        } else {
            0u8
        },
        if is_uno {
            1u8
        } else {
            0u8
        },
    ]
}

/// The 72-byte draw journal.
pub open spec fn spec_draw_journal(
    session_id: u32,
    old_hash: Seq<u8>,
    new_hash: Seq<u8>,
    draw_count: u32,
) -> Seq<u8> {
    spec_u32_to_be_bytes(session_id) + old_hash + new_hash + spec_u32_to_be_bytes(draw_count)
}

/// Encode the hand-commit (or declare-UNO) journal.
pub fn commit_journal(session_id: u32, hand_hash: &[u8; 32]) -> (r: Vec<u8>)
    ensures
        r@ == spec_commit_journal(session_id, hand_hash@),
        r@.len() == 36,
{
    let mut out: Vec<u8> = Vec::new();
    push_u32_be(&mut out, session_id);
    push_bytes32(&mut out, hand_hash);
    out
}

/// Encode the move journal.
pub fn move_journal(
    session_id: u32,
    old_hash: &[u8; 32],
    new_hash: &[u8; 32],
    played_colour: u8,
    played_value: u8,
    wild_colour: u8,
    active_colour: u8,
    is_winner: bool,
    is_uno: bool,
) -> (r: Vec<u8>)
    ensures
        r@ == spec_move_journal(
            session_id,
            old_hash@,
            new_hash@,
            played_colour,
            played_value,
            wild_colour,
            active_colour,
            is_winner,
            is_uno,
        ),
        r@.len() == 74,
{
    let mut out: Vec<u8> = Vec::new();
    push_u32_be(&mut out, session_id);
    push_bytes32(&mut out, old_hash);
    push_bytes32(&mut out, new_hash);
    out.push(played_colour);
    out.push(played_value);
    out.push(wild_colour);
    out.push(active_colour);
    out.push(if is_winner {
        1
    } else {
        0
    });
    out.push(if is_uno {
        1
    } else {
        0
    });
    proof {
        assert(out@ =~= spec_move_journal(
            session_id,
            old_hash@,
            new_hash@,
            played_colour,
            played_value,
            wild_colour,
            active_colour,
            is_winner,
            is_uno,
        ));
    }
    out
}

/// Encode the draw journal.
pub fn draw_journal(session_id: u32, old_hash: &[u8; 32], new_hash: &[u8; 32], draw_count: u32) -> (r:
    Vec<u8>)
    ensures
        r@ == spec_draw_journal(session_id, old_hash@, new_hash@, draw_count),
        r@.len() == 72,
{
    let mut out: Vec<u8> = Vec::new();
    push_u32_be(&mut out, session_id);
    push_bytes32(&mut out, old_hash);
    push_bytes32(&mut out, new_hash);
    push_u32_be(&mut out, draw_count);
    out
}

/// The fields of a decoded move journal, as mathematical values.
pub ghost struct MoveJournalData {
    pub session_id: u32,
    pub old_hash: Seq<u8>,
    pub new_hash: Seq<u8>,
    pub played_colour: u8,
    pub played_value: u8,
    pub wild_colour: u8,
    pub active_colour: u8,
    pub is_winner: bool,
    pub is_uno: bool,
}

/// Decode a 74-byte move journal; any other length, or a flag byte that is
/// neither 0 nor 1, is rejected.
pub open spec fn spec_decode_move_journal(b: Seq<u8>) -> Option<MoveJournalData> {
    if b.len() != 74 {
        None
    } else if b[72] != 0 && b[72] != 1 {
        None
    } else if b[73] != 0 && b[73] != 1 {
        None
    } else {
        Some(
            (MoveJournalData {
                session_id: spec_u32_from_be_bytes(b[0], b[1], b[2], b[3]),
                old_hash: b.subrange(4, 36),
                new_hash: b.subrange(36, 68),
                played_colour: b[68],
                played_value: b[69],
                wild_colour: b[70],
                active_colour: b[71],
                is_winner: b[72] == 1,
                is_uno: b[73] == 1,
            }),
        )
    }
}

/// A decoded move journal.
pub struct MoveJournal {
    pub session_id: u32,
    pub old_hash: [u8; 32],
    pub new_hash: [u8; 32],
    pub played_colour: u8,
    pub played_value: u8,
    pub wild_colour: u8,
    pub active_colour: u8,
    pub is_winner: bool,
    pub is_uno: bool,
}

/// Decode a move journal from raw bytes.
pub fn decode_move_journal(bytes: &Vec<u8>) -> (r: Option<MoveJournal>)
    ensures
        r is Some <==> spec_decode_move_journal(bytes@) is Some,
        r matches Some(m) ==> {
            let d = spec_decode_move_journal(bytes@)->Some_0;
            &&& m.session_id == d.session_id
            &&& m.old_hash@ == d.old_hash
            &&& m.new_hash@ == d.new_hash
            &&& m.played_colour == d.played_colour
            &&& m.played_value == d.played_value
            &&& m.wild_colour == d.wild_colour
            &&& m.active_colour == d.active_colour
            &&& m.is_winner == d.is_winner
            &&& m.is_uno == d.is_uno
        },
{
    if bytes.len() != 74 {
        return None;
    }
    let win_byte = bytes[72];
    let uno_byte = bytes[73];
    if win_byte > 1 || uno_byte > 1 {
        return None;
    }
    let session_id = u32_from_be(bytes[0], bytes[1], bytes[2], bytes[3]);
    let old_hash = read_bytes32(bytes, 4);
    let new_hash = read_bytes32(bytes, 36);
    Some(
        MoveJournal {
            session_id,
            old_hash,
            new_hash,
            played_colour: bytes[68],
            played_value: bytes[69],
            wild_colour: bytes[70],
            active_colour: bytes[71],
            is_winner: win_byte == 1,
            is_uno: uno_byte == 1,
        },
    )
}

/// Law: a move journal decodes back to exactly the fields it was encoded
/// from, for every choice of fields with 32-byte hashes.
pub proof fn lemma_move_journal_round_trip(
    session_id: u32,
    old_hash: Seq<u8>,
    new_hash: Seq<u8>,
    played_colour: u8,
    played_value: u8,
    wild_colour: u8,
    active_colour: u8,
    is_winner: bool,
    is_uno: bool,
)
    requires
        old_hash.len() == 32,
        new_hash.len() == 32,
    ensures
        spec_decode_move_journal(
            spec_move_journal(
                session_id,
                old_hash,
                new_hash,
                played_colour,
                played_value,
                wild_colour,
                active_colour,
                is_winner,
                is_uno,
            ),
        ) == Some(
            (MoveJournalData {
                session_id,
                old_hash,
                new_hash,
                played_colour,
                played_value,
                wild_colour,
                active_colour,
                is_winner,
                is_uno,
            }),
        ),
{
    let b = spec_move_journal(
        session_id,
        old_hash,
        new_hash,
        played_colour,
        played_value,
        wild_colour,
        active_colour,
        is_winner,
        is_uno,
    );
    lemma_u32_be_round_trip(session_id);
    assert(b[0] == spec_u32_to_be_bytes(session_id)[0]);
    assert(b[1] == spec_u32_to_be_bytes(session_id)[1]);
    assert(b[2] == spec_u32_to_be_bytes(session_id)[2]);
    assert(b[3] == spec_u32_to_be_bytes(session_id)[3]);
    assert(b.subrange(4, 36) =~= old_hash);
    assert(b.subrange(36, 68) =~= new_hash);
}

/// The fields of a decoded draw journal, as mathematical values.
pub ghost struct DrawJournalData {
    pub session_id: u32,
    pub old_hash: Seq<u8>,
    pub new_hash: Seq<u8>,
    pub draw_count: u32,
}

/// Decode a 72-byte draw journal; any other length is rejected.
pub open spec fn spec_decode_draw_journal(b: Seq<u8>) -> Option<DrawJournalData> {
    if b.len() != 72 {
        None
    } else {
        Some(
            (DrawJournalData {
                session_id: spec_u32_from_be_bytes(b[0], b[1], b[2], b[3]),
                old_hash: b.subrange(4, 36),
                new_hash: b.subrange(36, 68),
                draw_count: spec_u32_from_be_bytes(b[68], b[69], b[70], b[71]),
            }),
        )
    }
}

/// A decoded draw journal.
pub struct DrawJournal {
    pub session_id: u32,
    pub old_hash: [u8; 32],
    pub new_hash: [u8; 32],
    pub draw_count: u32,
}

/// Decode a draw journal from raw bytes.
pub fn decode_draw_journal(bytes: &Vec<u8>) -> (r: Option<DrawJournal>)
    ensures
        r is Some <==> spec_decode_draw_journal(bytes@) is Some,
        r matches Some(m) ==> {
            let d = spec_decode_draw_journal(bytes@)->Some_0;
            &&& m.session_id == d.session_id
            &&& m.old_hash@ == d.old_hash
            &&& m.new_hash@ == d.new_hash
            &&& m.draw_count == d.draw_count
        },
{
    if bytes.len() != 72 {
        return None;
    }
    let session_id = u32_from_be(bytes[0], bytes[1], bytes[2], bytes[3]);
    let old_hash = read_bytes32(bytes, 4);
    let new_hash = read_bytes32(bytes, 36);
    let draw_count = u32_from_be(bytes[68], bytes[69], bytes[70], bytes[71]);
    Some(DrawJournal { session_id, old_hash, new_hash, draw_count })
}

/// Law: a draw journal decodes back to exactly the fields it was encoded
/// from, for every choice of fields with 32-byte hashes.
pub proof fn lemma_draw_journal_round_trip(
    session_id: u32,
    old_hash: Seq<u8>,
    new_hash: Seq<u8>,
    draw_count: u32,
)
    requires
        old_hash.len() == 32,
        new_hash.len() == 32,
    ensures
        spec_decode_draw_journal(spec_draw_journal(session_id, old_hash, new_hash, draw_count))
            == Some((DrawJournalData { session_id, old_hash, new_hash, draw_count })),
{
    let b = spec_draw_journal(session_id, old_hash, new_hash, draw_count);
    lemma_u32_be_round_trip(session_id);
    lemma_u32_be_round_trip(draw_count);
    assert(b[0] == spec_u32_to_be_bytes(session_id)[0]);
    assert(b[1] == spec_u32_to_be_bytes(session_id)[1]);
    assert(b[2] == spec_u32_to_be_bytes(session_id)[2]);
    assert(b[3] == spec_u32_to_be_bytes(session_id)[3]);
    assert(b[68] == spec_u32_to_be_bytes(draw_count)[0]);
    assert(b[69] == spec_u32_to_be_bytes(draw_count)[1]);
    assert(b[70] == spec_u32_to_be_bytes(draw_count)[2]);
    assert(b[71] == spec_u32_to_be_bytes(draw_count)[3]);
    assert(b.subrange(4, 36) =~= old_hash);
    assert(b.subrange(36, 68) =~= new_hash);
}

/// The fields of a decoded hand-commit (or declare-UNO) journal.
pub ghost struct CommitJournalData {
    pub session_id: u32,
    pub hand_hash: Seq<u8>,
}

/// Decode a 36-byte hand-commit (or declare-UNO) journal; any other length
/// is rejected.
pub open spec fn spec_decode_commit_journal(b: Seq<u8>) -> Option<CommitJournalData> {
    if b.len() != 36 {
        None
    } else {
        Some(
            (CommitJournalData {
                session_id: spec_u32_from_be_bytes(b[0], b[1], b[2], b[3]),
                hand_hash: b.subrange(4, 36),
            }),
        )
    }
}

/// A decoded hand-commit (or declare-UNO) journal.
pub struct CommitJournal {
    pub session_id: u32,
    pub hand_hash: [u8; 32],
}

/// Decode a hand-commit (or declare-UNO) journal from raw bytes.
pub fn decode_commit_journal(bytes: &Vec<u8>) -> (r: Option<CommitJournal>)
    ensures
        r is Some <==> spec_decode_commit_journal(bytes@) is Some,
        r matches Some(m) ==> {
            let d = spec_decode_commit_journal(bytes@)->Some_0;
            &&& m.session_id == d.session_id
            &&& m.hand_hash@ == d.hand_hash
        },
{
    if bytes.len() != 36 {
        return None;
    }
    let session_id = u32_from_be(bytes[0], bytes[1], bytes[2], bytes[3]);
    let hand_hash = read_bytes32(bytes, 4);
    Some(CommitJournal { session_id, hand_hash })
}

/// Law: a hand-commit journal decodes back to exactly the fields it was
/// encoded from, for every 32-byte hash.
pub proof fn lemma_commit_journal_round_trip(session_id: u32, hand_hash: Seq<u8>)
    requires
        hand_hash.len() == 32,
    ensures
        spec_decode_commit_journal(spec_commit_journal(session_id, hand_hash)) == Some(
            (CommitJournalData { session_id, hand_hash }),
        ),
{
    let b = spec_commit_journal(session_id, hand_hash);
    lemma_u32_be_round_trip(session_id);
    assert(b[0] == spec_u32_to_be_bytes(session_id)[0]);
    assert(b[1] == spec_u32_to_be_bytes(session_id)[1]);
    assert(b[2] == spec_u32_to_be_bytes(session_id)[2]);
    assert(b[3] == spec_u32_to_be_bytes(session_id)[3]);
    assert(b.subrange(4, 36) =~= hand_hash);
}

} // verus!
