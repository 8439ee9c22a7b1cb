//! The four proof statements, as they are evaluated inside the proof host.
//!
//! Each evaluator consumes the private inputs (hands and salts) together
//! with the public inputs, checks the statement, and — only when every part
//! of the statement holds — emits the public journal that the proof commits
//! to.  A `None` result means no proof of the statement can exist for these
//! inputs.

use vstd::prelude::*;
use crate::deck::derive_card;
use crate::deck::spec_derive_card;
use crate::encoding::bytes32_eq;
use crate::encoding::bytes_eq;
use crate::encoding::push_bytes;
use crate::hand::card_in_hand;
use crate::hand::hand_cards_valid;
use crate::hand::has_matching_colour;
use crate::hand::remove_first_card;
use crate::hand::spec_card_in_hand;
use crate::hand::spec_has_matching_colour;
use crate::hand::spec_pairs_valid;
use crate::hand::spec_remove_first;
use crate::hashing::commit_hash;
use crate::hashing::spec_commit_hash;
use crate::journal::commit_journal;
use crate::journal::draw_journal;
use crate::journal::move_journal;
use crate::journal::spec_commit_journal;
use crate::journal::spec_draw_journal;
use crate::journal::spec_move_journal;
use crate::cards::spec_valid_card;

verus! {

/// The hand-commitment statement: the committed hand consists of exactly 7
/// syntactically valid cards and hashes, under the salt, to the expected
/// commitment.  On success the emitted journal binds the session to that
/// commitment.
pub fn eval_commit(
    session_id: u32,
    hand_bytes: &Vec<u8>,
    salt: &[u8; 32],
    expected_hash: &[u8; 32],
) -> (r: Option<Vec<u8>>)
    ensures
        r is Some <==> {
            &&& hand_bytes@.len() == 14
            &&& spec_commit_hash(hand_bytes@, salt@) == expected_hash@
            &&& spec_pairs_valid(hand_bytes@, 7)
        },
        r matches Some(j) ==> j@ == spec_commit_journal(session_id, expected_hash@),
{
    if hand_bytes.len() != 14 {
        return None;
    }
    let computed = commit_hash(hand_bytes, salt);
    if !bytes32_eq(&computed, expected_hash) {
        return None;
    }
    if !hand_cards_valid(hand_bytes) {
        return None;
    }
    Some(commit_journal(session_id, expected_hash))
}

/// The move statement: the played card occurs in the old hand, a WildDraw4
/// is only played when no non-wild card matches the colour in force, and the
/// new hand is the old hand with the first occurrence of the played card
/// removed.  The emitted journal carries both commitments and the honestly
/// derived `is_winner` and `is_uno` flags; the card count itself never
/// leaves the evaluator.
pub fn eval_move(
    old_hand: &Vec<u8>,
    old_salt: &[u8; 32],
    new_hand: &Vec<u8>,
    new_salt: &[u8; 32],
    session_id: u32,
    played_colour: u8,
    played_value: u8,
    wild_colour: u8,
    active_colour: u8,
) -> (r: Option<Vec<u8>>)
    ensures
        r is Some <==> {
            &&& spec_card_in_hand(old_hand@, played_colour, played_value)
            &&& (played_value == 14 ==> !spec_has_matching_colour(old_hand@, active_colour))
            &&& new_hand@ == spec_remove_first(old_hand@, played_colour, played_value)
        },
        r matches Some(j) ==> j@ == spec_move_journal(
            session_id,
            spec_commit_hash(old_hand@, old_salt@),
            spec_commit_hash(new_hand@, new_salt@),
            played_colour,
            played_value,
            wild_colour,
            active_colour,
            new_hand@.len() / 2 == 0,
            new_hand@.len() / 2 == 1,
        ),
{
    let old_hash = commit_hash(old_hand, old_salt);
    if !card_in_hand(old_hand, played_colour, played_value) {
        return None;
    }
    if played_value == 14 && has_matching_colour(old_hand, active_colour) {
        return None;
    }
    let expected_new = remove_first_card(old_hand, played_colour, played_value);
    if !bytes_eq(&expected_new, new_hand) {
        return None;
    }
    let new_hash = commit_hash(new_hand, new_salt);
    let new_count = new_hand.len() / 2;
    let is_winner = new_count == 0;
    let is_uno = new_count == 1;
    Some(
        move_journal(
            session_id,
            &old_hash,
            &new_hash,
            played_colour,
            played_value,
            wild_colour,
            active_colour,
            is_winner,
            is_uno,
        ),
    )
}

/// The draw statement: the new hand is the old hand with exactly the card
/// derived for `(session_id, draw_count)` appended.  The emitted journal
/// carries both commitments and the draw index.
pub fn eval_draw(
    old_hand: &Vec<u8>,
    old_salt: &[u8; 32],
    new_hand: &Vec<u8>,
    new_salt: &[u8; 32],
    session_id: u32,
    draw_count: u32,
) -> (r: Option<Vec<u8>>)
    ensures
        r is Some <==> new_hand@ == old_hand@ + seq![
            spec_derive_card(session_id, draw_count).0 as u8,
            spec_derive_card(session_id, draw_count).1 as u8,
        ],
        r matches Some(j) ==> j@ == spec_draw_journal(
            session_id,
            spec_commit_hash(old_hand@, old_salt@),
            spec_commit_hash(new_hand@, new_salt@),
            draw_count,
        ),
{
    let old_hash = commit_hash(old_hand, old_salt);
    let (drawn_colour, drawn_value) = derive_card(session_id, draw_count);
    let mut expected_new: Vec<u8> = Vec::new();
    push_bytes(&mut expected_new, old_hand);
    expected_new.push(drawn_colour as u8);
    expected_new.push(drawn_value as u8);
    proof {
        assert(expected_new@ =~= old_hand@ + seq![
            spec_derive_card(session_id, draw_count).0 as u8,
            spec_derive_card(session_id, draw_count).1 as u8,
        ]);
    }
    if !bytes_eq(&expected_new, new_hand) {
        return None;
    }
    let new_hash = commit_hash(new_hand, new_salt);
    Some(draw_journal(session_id, &old_hash, &new_hash, draw_count))
}

/// The declare-UNO statement: the committed hand consists of exactly one
/// syntactically valid card and hashes, under the salt, to the expected
/// commitment.  On success the emitted journal binds the session to that
/// commitment.
pub fn eval_uno(session_id: u32, hand_bytes: &Vec<u8>, salt: &[u8; 32], expected_hash: &[u8; 32]) -> (r:
    Option<Vec<u8>>)
    ensures
        r is Some <==> {
            &&& hand_bytes@.len() == 2
            &&& spec_commit_hash(hand_bytes@, salt@) == expected_hash@
            &&& spec_valid_card(hand_bytes@[0], hand_bytes@[1])
        },
        r matches Some(j) ==> j@ == spec_commit_journal(session_id, expected_hash@),
{
    if hand_bytes.len() != 2 {
        return None;
    }
    let computed = commit_hash(hand_bytes, salt);
    if !bytes32_eq(&computed, expected_hash) {
        return None;
    }
    let colour = hand_bytes[0];
    let value = hand_bytes[1];
    let ok = if colour > 4 {
        false
    } else if colour == 4 {
        value == 13 || value == 14
    } else {
        value <= 12
    };
    if !ok {
        return None;
    }
    Some(commit_journal(session_id, expected_hash))
}

} // verus!
