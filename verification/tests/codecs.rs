//! Codec vectors, hashing vectors, guest evaluations and card-effect
//! behaviour, checked against fixed values and against the real hash
//! crates.

use sha2::Digest;
use tiny_keccak::Hasher;
use zk_uno::build_mock_seal;
use zk_uno::commit_hash;
use zk_uno::commit_journal;
use zk_uno::decode_commit_journal;
use zk_uno::decode_draw_journal;
use zk_uno::decode_move_journal;
use zk_uno::decode_hex;
use zk_uno::derive_card;
use zk_uno::draw_journal;
use zk_uno::encode_hex;
use zk_uno::eval_commit;
use zk_uno::eval_draw;
use zk_uno::eval_move;
use zk_uno::eval_uno;
use zk_uno::move_journal;
use zk_uno::ZkUnoContract;
use zk_uno::RED;
use zk_uno::WILD;

fn keccak256_direct(parts: &[&[u8]]) -> [u8; 32] {
    let mut k = tiny_keccak::Keccak::v256();
    for p in parts {
        k.update(p);
    }
    let mut out = [0u8; 32];
    k.finalize(&mut out);
    out
}

fn sha256_direct(data: &[u8]) -> [u8; 32] {
    let mut h = sha2::Sha256::new();
    h.update(data);
    let out = h.finalize();
    let mut r = [0u8; 32];
    r.copy_from_slice(&out);
    r
}

// ── Hashing ──────────────────────────────────────────────────────────────

#[test]
fn commit_hash_matches_keccak_of_hand_then_salt() {
    let hand: Vec<u8> = vec![0, 3, 1, 7, 4, 13];
    let salt = [9u8; 32];
    let ours = commit_hash(&hand, &salt);
    let direct = keccak256_direct(&[&hand, &salt]);
    assert_eq!(ours, direct);
}

#[test]
fn commit_hash_changes_with_hand_and_with_salt() {
    let hand_a: Vec<u8> = vec![0, 1, 2, 3];
    let hand_b: Vec<u8> = vec![0, 1, 2, 4];
    let salt_a = [0u8; 32];
    let salt_b = [1u8; 32];
    let h_aa = commit_hash(&hand_a, &salt_a);
    let h_ba = commit_hash(&hand_b, &salt_a);
    let h_ab = commit_hash(&hand_a, &salt_b);
    assert_ne!(h_aa, h_ba);
    assert_ne!(h_aa, h_ab);
}

#[test]
fn commit_hash_of_empty_hand_and_zero_salt_is_keccak_of_zeros() {
    let empty: Vec<u8> = Vec::new();
    let salt = [0u8; 32];
    let ours = commit_hash(&empty, &salt);
    let direct = keccak256_direct(&[&[0u8; 32]]);
    assert_eq!(ours, direct);
}

// ── Deck derivation ──────────────────────────────────────────────────────

#[test]
fn derive_card_is_pure_and_always_valid() {
    for index in 0..40u32 {
        let (c1, v1) = derive_card(7, index);
        let (c2, v2) = derive_card(7, index);
        assert_eq!((c1, v1), (c2, v2));
        assert!(c1 <= 4);
        if c1 == 4 {
            assert!(v1 == 13 || v1 == 14);
        } else {
            assert!(v1 <= 12);
        }
    }
}

#[test]
fn derive_card_matches_keccak_of_both_identifiers() {
    let session_id: u32 = 0xdead_0001;
    let index: u32 = 14;
    let mut seed_input = Vec::new();
    seed_input.extend_from_slice(&session_id.to_be_bytes());
    seed_input.extend_from_slice(&index.to_be_bytes());
    let seed = keccak256_direct(&[&seed_input]);
    let colour_raw = u32::from_be_bytes([seed[0], seed[1], seed[2], seed[3]]);
    let value_raw = u32::from_be_bytes([seed[4], seed[5], seed[6], seed[7]]);
    let colour = colour_raw % 5;
    let value = if colour == 4 {
        13 + (value_raw % 2)
    } else {
        value_raw % 13
    };
    assert_eq!(derive_card(session_id, index), (colour, value));
}

// ── Journal codecs ───────────────────────────────────────────────────────

#[test]
fn move_journal_layout_is_byte_exact() {
    let old_hash = [0x11u8; 32];
    let new_hash = [0x22u8; 32];
    let j = move_journal(0x01020304, &old_hash, &new_hash, 4, 13, 0, 2, false, true);
    assert_eq!(j.len(), 74);
    assert_eq!(&j[0..4], &[1, 2, 3, 4]);
    assert_eq!(&j[4..36], &[0x11u8; 32]);
    assert_eq!(&j[36..68], &[0x22u8; 32]);
    assert_eq!(&j[68..74], &[4, 13, 0, 2, 0, 1]);
}

#[test]
fn move_journal_round_trips() {
    let old_hash = [0xaau8; 32];
    let new_hash = [0xbbu8; 32];
    let j = move_journal(77, &old_hash, &new_hash, 1, 12, 3, 1, true, false);
    let d = decode_move_journal(&j).unwrap();
    assert_eq!(d.session_id, 77);
    assert_eq!(d.old_hash, old_hash);
    assert_eq!(d.new_hash, new_hash);
    assert_eq!(d.played_colour, 1);
    assert_eq!(d.played_value, 12);
    assert_eq!(d.wild_colour, 3);
    assert_eq!(d.active_colour, 1);
    assert!(d.is_winner);
    assert!(!d.is_uno);
}

#[test]
fn move_journal_decode_rejects_bad_input() {
    assert!(decode_move_journal(&vec![0u8; 73]).is_none());
    assert!(decode_move_journal(&vec![0u8; 75]).is_none());
    let mut j = move_journal(1, &[0u8; 32], &[0u8; 32], 0, 0, 0, 0, false, false);
    j[72] = 2;
    assert!(decode_move_journal(&j).is_none());
}

#[test]
fn draw_journal_layout_and_round_trip() {
    let old_hash = [0x33u8; 32];
    let new_hash = [0x44u8; 32];
    let j = draw_journal(0x0a0b0c0d, &old_hash, &new_hash, 15);
    assert_eq!(j.len(), 72);
    assert_eq!(&j[0..4], &[0x0a, 0x0b, 0x0c, 0x0d]);
    assert_eq!(&j[68..72], &[0, 0, 0, 15]);
    let d = decode_draw_journal(&j).unwrap();
    assert_eq!(d.session_id, 0x0a0b0c0d);
    assert_eq!(d.old_hash, old_hash);
    assert_eq!(d.new_hash, new_hash);
    assert_eq!(d.draw_count, 15);
    assert!(decode_draw_journal(&vec![0u8; 71]).is_none());
}

#[test]
fn commit_journal_layout_and_round_trip() {
    let hash = [0x55u8; 32];
    let j = commit_journal(0x00000009, &hash);
    assert_eq!(j.len(), 36);
    assert_eq!(&j[0..4], &[0, 0, 0, 9]);
    assert_eq!(&j[4..36], &[0x55u8; 32]);
    let d = decode_commit_journal(&j).unwrap();
    assert_eq!(d.session_id, 9);
    assert_eq!(d.hand_hash, hash);
    assert!(decode_commit_journal(&vec![0u8; 35]).is_none());
}

// ── Journal requests carry the sha256 of the journal ─────────────────────

#[test]
fn commit_request_digest_matches_sha256() {
    let mut c = ZkUnoContract::new(1, 2);
    c.set_risc0_verifier(3);
    let hash = [0x66u8; 32];
    let req = c.commit_hand_journal(4, &hash).unwrap();
    assert_eq!(req.journal, commit_journal(4, &hash));
    assert_eq!(req.journal_sha256, sha256_direct(&req.journal));
}

// ── Guest evaluators ─────────────────────────────────────────────────────

#[test]
fn eval_commit_accepts_a_valid_hand_and_rejects_others() {
    let hand: Vec<u8> = vec![0, 1, 1, 2, 2, 3, 3, 4, 0, 9, 4, 13, 4, 14];
    let salt = [7u8; 32];
    let expected = commit_hash(&hand, &salt);
    let journal = eval_commit(31, &hand, &salt, &expected).unwrap();
    assert_eq!(journal, commit_journal(31, &expected));

    // A wrong commitment
    let wrong = [0u8; 32];
    assert!(eval_commit(31, &hand, &salt, &wrong).is_none());

    // An invalid card: colour 5
    let mut bad_hand = hand.clone();
    bad_hand[0] = 5;
    let bad_expected = commit_hash(&bad_hand, &salt);
    assert!(eval_commit(31, &bad_hand, &salt, &bad_expected).is_none());

    // A wild card with a numeral value
    let mut bad_wild = hand.clone();
    bad_wild[10] = 4;
    bad_wild[11] = 7;
    let bad_wild_expected = commit_hash(&bad_wild, &salt);
    assert!(eval_commit(31, &bad_wild, &salt, &bad_wild_expected).is_none());

    // A short hand
    let short: Vec<u8> = vec![0, 1];
    let short_expected = commit_hash(&short, &salt);
    assert!(eval_commit(31, &short, &salt, &short_expected).is_none());
}

#[test]
fn eval_move_removes_the_played_card_and_sets_flags() {
    let old_hand: Vec<u8> = vec![0, 3, 1, 7];
    let old_salt = [1u8; 32];
    let new_hand: Vec<u8> = vec![1, 7];
    let new_salt = [2u8; 32];
    let journal = eval_move(&old_hand, &old_salt, &new_hand, &new_salt, 5, 0, 3, 0, 0).unwrap();
    let d = decode_move_journal(&journal).unwrap();
    assert_eq!(d.session_id, 5);
    assert_eq!(d.old_hash, commit_hash(&old_hand, &old_salt));
    assert_eq!(d.new_hash, commit_hash(&new_hand, &new_salt));
    assert_eq!(d.played_colour, 0);
    assert_eq!(d.played_value, 3);
    assert!(!d.is_winner);
    assert!(d.is_uno);

    // The played card must be in the old hand
    assert!(eval_move(&old_hand, &old_salt, &new_hand, &new_salt, 5, 2, 9, 0, 0).is_none());

    // The new hand must be the old hand minus the played card
    let tampered: Vec<u8> = vec![0, 3];
    assert!(eval_move(&old_hand, &old_salt, &tampered, &[3u8; 32], 5, 0, 3, 0, 0).is_none());
}

#[test]
fn eval_move_enforces_wild_draw4_legality() {
    // Hand holds a red numeral and a WildDraw4
    let old_hand: Vec<u8> = vec![0, 6, 4, 14];
    let old_salt = [1u8; 32];
    let new_hand: Vec<u8> = vec![0, 6];
    let new_salt = [2u8; 32];
    // With red in force, playing the WildDraw4 is illegal: a red card is held
    assert!(eval_move(&old_hand, &old_salt, &new_hand, &new_salt, 6, 4, 14, 1, 0).is_none());
    // With yellow in force it is legal
    assert!(eval_move(&old_hand, &old_salt, &new_hand, &new_salt, 6, 4, 14, 1, 1).is_some());
}

#[test]
fn eval_move_reports_a_win_on_the_emptied_hand() {
    let old_hand: Vec<u8> = vec![4, 13];
    let old_salt = [1u8; 32];
    let new_hand: Vec<u8> = Vec::new();
    let new_salt = [2u8; 32];
    let journal = eval_move(&old_hand, &old_salt, &new_hand, &new_salt, 8, 4, 13, 0, 2).unwrap();
    let d = decode_move_journal(&journal).unwrap();
    assert!(d.is_winner);
    assert!(!d.is_uno);
}

#[test]
fn eval_draw_requires_exactly_the_derived_card() {
    let session_id = 52;
    let draw_count = 15;
    let (c, v) = derive_card(session_id, draw_count);
    let old_hand: Vec<u8> = vec![0, 1, 2, 3];
    let old_salt = [1u8; 32];
    let mut new_hand = old_hand.clone();
    new_hand.push(c as u8);
    new_hand.push(v as u8);
    let new_salt = [2u8; 32];
    let journal =
        eval_draw(&old_hand, &old_salt, &new_hand, &new_salt, session_id, draw_count).unwrap();
    let d = decode_draw_journal(&journal).unwrap();
    assert_eq!(d.session_id, session_id);
    assert_eq!(d.draw_count, draw_count);
    assert_eq!(d.old_hash, commit_hash(&old_hand, &old_salt));
    assert_eq!(d.new_hash, commit_hash(&new_hand, &new_salt));

    // Appending any other card fails
    let mut wrong = old_hand.clone();
    wrong.push((c as u8).wrapping_add(1));
    wrong.push(v as u8);
    assert!(eval_draw(&old_hand, &old_salt, &wrong, &new_salt, session_id, draw_count).is_none());
}

#[test]
fn eval_uno_accepts_exactly_one_valid_card() {
    let hand: Vec<u8> = vec![0, 5];
    let salt = [3u8; 32];
    let expected = commit_hash(&hand, &salt);
    let journal = eval_uno(70, &hand, &salt, &expected).unwrap();
    assert_eq!(journal, commit_journal(70, &expected));

    let two_cards: Vec<u8> = vec![0, 5, 1, 6];
    let two_expected = commit_hash(&two_cards, &salt);
    assert!(eval_uno(70, &two_cards, &salt, &two_expected).is_none());

    let bad_card: Vec<u8> = vec![0, 13];
    let bad_expected = commit_hash(&bad_card, &salt);
    assert!(eval_uno(70, &bad_card, &salt, &bad_expected).is_none());
}

// ── Card effects ─────────────────────────────────────────────────────────

#[test]
fn apply_card_effects_holds_or_flips_the_turn() {
    for value in 0..=14u32 {
        let mut draw_count: u32 = 15;
        let next = ZkUnoContract::apply_card_effects(0, value, &mut draw_count);
        if value == 10 || value == 11 || value == 12 || value == 14 {
            assert_eq!(next, 0, "value {value} must hold the turn");
        } else {
            assert_eq!(next, 1, "value {value} must flip the turn");
        }
        let expected_draws = match value {
            12 => 17,
            14 => 19,
            _ => 15,
        };
        assert_eq!(draw_count, expected_draws);
    }
}

// ── Legality rule ────────────────────────────────────────────────────────

#[test]
fn can_play_matches_the_rule() {
    // Wild always plays
    assert!(zk_uno::can_play(WILD, 13, 2, 9));
    // Colour in force plays
    assert!(zk_uno::can_play(2, 5, 2, 9));
    // Value match plays across colours, up to DrawTwo
    assert!(zk_uno::can_play(1, 9, 2, 9));
    assert!(zk_uno::can_play(1, 12, 2, 12));
    // A value match on 13 or higher does not count
    assert!(!zk_uno::can_play(1, 13, 2, 13));
    // Otherwise illegal
    assert!(!zk_uno::can_play(RED, 5, 2, 9));
}

// ── Hex ──────────────────────────────────────────────────────────────────

#[test]
fn hex_decodes_with_and_without_prefix() {
    let bytes = decode_hex(&b"0xdeadbeef".to_vec()).unwrap();
    assert_eq!(bytes, vec![0xde, 0xad, 0xbe, 0xef]);
    let bytes2 = decode_hex(&b"DEADBEEF".to_vec()).unwrap();
    assert_eq!(bytes2, vec![0xde, 0xad, 0xbe, 0xef]);
    assert!(decode_hex(&b"abc".to_vec()).is_none());
    assert!(decode_hex(&b"zz".to_vec()).is_none());
}

#[test]
fn hex_encodes_lowercase_and_round_trips() {
    let bytes: Vec<u8> = vec![0xde, 0xad, 0x00, 0x0f];
    let encoded = encode_hex(&bytes);
    assert_eq!(encoded, b"dead000f".to_vec());
    assert_eq!(decode_hex(&encoded).unwrap(), bytes);
}

// ── Seal construction ────────────────────────────────────────────────────

#[test]
fn mock_seal_matches_the_receipt_claim_digest() {
    let journal = commit_journal(42, &[0x77u8; 32]);
    let seal = build_mock_seal(&journal);
    assert_eq!(seal.len(), 36);
    assert_eq!(&seal[0..4], &[0x73, 0xc4, 0x57, 0xba]);

    // Replicate the construction with the hash crate directly.
    let tag_output: [u8; 32] = [
        0x77, 0xea, 0xfe, 0xb3, 0xdf, 0xc3, 0x4a, 0x1c, 0x6b, 0x44, 0x5d, 0x3e, 0xf2, 0x6d, 0x12,
        0x32, 0x2e, 0xa4, 0x84, 0x72, 0x40, 0x14, 0x0a, 0x9a, 0xf8, 0x22, 0x08, 0x5f, 0x75, 0xdc,
        0x4e, 0xa0,
    ];
    let tag_claim: [u8; 32] = [
        0xcb, 0x1f, 0xef, 0xcd, 0x6d, 0xda, 0x1c, 0x3c, 0x74, 0x91, 0xb3, 0x09, 0x22, 0xf7, 0x0b,
        0xc0, 0x5e, 0xcf, 0xff, 0xf6, 0xb2, 0x2e, 0x73, 0x61, 0x78, 0x06, 0x9f, 0x14, 0x51, 0x48,
        0x72, 0x64,
    ];
    let post_state_halted: [u8; 32] = [
        0xa3, 0xac, 0xc2, 0x71, 0x26, 0x03, 0x80, 0x27, 0x81, 0xa2, 0xae, 0x6d, 0x44, 0x56, 0x28,
        0x6e, 0x73, 0x79, 0x11, 0x7a, 0x74, 0xe2, 0x10, 0x88, 0x28, 0xb6, 0xb4, 0x8e, 0x5a, 0xab,
        0x3e, 0x0b,
    ];
    let journal_sha256 = sha256_direct(&journal);
    let zeros32 = [0u8; 32];
    let output_len_tag = [0x02u8, 0, 0, 0, 0, 0, 0, 0];
    let output_preimage: Vec<u8> = [
        tag_output.as_slice(),
        &journal_sha256,
        &zeros32,
        &output_len_tag,
    ]
    .concat();
    let output_digest = sha256_direct(&output_preimage);
    let claim_suffix = [0u8, 0, 0, 0, 0, 0, 0, 0, 0x05, 0, 0, 0, 0, 0, 0, 0];
    let claim_preimage: Vec<u8> = [
        tag_claim.as_slice(),
        &zeros32,
        &zeros32,
        &post_state_halted,
        &output_digest,
        &claim_suffix,
    ]
    .concat();
    let claim_digest = sha256_direct(&claim_preimage);
    assert_eq!(&seal[4..36], &claim_digest);
}
