//! Scans over an encoded hand.
//!
//! A hand is a flat byte sequence, two bytes per card (colour, value).  The
//! scans walk the sequence pair by pair; a trailing odd byte, which encodes
//! no card, is ignored.

use vstd::prelude::*;
use crate::cards::spec_valid_card;

verus! {

/// Card `k` of the hand (0-based), as far as the hand holds a pair there.
pub open spec fn spec_pair_matches(hand: Seq<u8>, k: int, colour: u8, value: u8) -> bool {
    hand[2 * k] == colour && hand[2 * k + 1] == value
}

/// The card `(colour, value)` occurs somewhere in the hand.
pub open spec fn spec_card_in_hand(hand: Seq<u8>, colour: u8, value: u8) -> bool {
    exists|k: int| 0 <= k && 2 * k + 1 < hand.len() && #[trigger] spec_pair_matches(
        hand,
        k,
        colour,
        value,
    )
}

/// Some non-wild card of the hand has colour `colour`.  Wild cards (colour 4
/// or a wild value) never count as a colour match.
pub open spec fn spec_has_matching_colour(hand: Seq<u8>, colour: u8) -> bool {
    exists|k: int|
        0 <= k && 2 * k + 1 < hand.len() && #[trigger] hand[2 * k] == colour && hand[2 * k] != 4
            && hand[2 * k + 1] != 13 && hand[2 * k + 1] != 14
}

/// The pairs of the hand, flattened in order; a trailing odd byte is dropped.
pub open spec fn spec_take_pairs(hand: Seq<u8>) -> Seq<u8>
    decreases hand.len(),
{
    if hand.len() < 2 {
        Seq::empty()
    } else {
        seq![hand[0], hand[1]] + spec_take_pairs(hand.skip(2))
    }
}

/// The hand with the first occurrence of `(colour, value)` removed; the
/// remaining pairs keep their order, and a trailing odd byte is dropped.
pub open spec fn spec_remove_first(hand: Seq<u8>, colour: u8, value: u8) -> Seq<u8>
    decreases hand.len(),
{
    if hand.len() < 2 {
        Seq::empty()
    } else if hand[0] == colour && hand[1] == value {
        spec_take_pairs(hand.skip(2))
    } else {
        seq![hand[0], hand[1]] + spec_remove_first(hand.skip(2), colour, value)
    }
}

/// Every one of the first `n` pairs of the hand is a syntactically valid
/// card.
pub open spec fn spec_pairs_valid(hand: Seq<u8>, n: int) -> bool {
    forall|k: int|
        0 <= k < n ==> #[trigger] spec_valid_card(hand[2 * k], hand[2 * k + 1])
}

/// Check whether the card `(colour, value)` occurs anywhere in the hand.
pub fn card_in_hand(hand: &Vec<u8>, colour: u8, value: u8) -> (r: bool)
    ensures
        r == spec_card_in_hand(hand@, colour, value),
{
    let n = hand.len() / 2;
    let mut k: usize = 0;
    while k < n
        invariant
            hand@.len() <= usize::MAX,
            n == hand@.len() / 2,
            k <= n,
            forall|j: int| 0 <= j < k ==> !spec_pair_matches(hand@, j, colour, value),
        decreases n - k,
    {
        if hand[2 * k] == colour && hand[2 * k + 1] == value {
            proof {
                assert(spec_pair_matches(hand@, k as int, colour, value));
            }
            return true;
        }
        k = k + 1;
    }
    proof {
        assert forall|j: int| 0 <= j && 2 * j + 1 < hand@.len() implies !spec_pair_matches(
            hand@,
            j,
            colour,
            value,
        ) by {
            assert(j < n);
        }
    }
    false
}

/// Check whether any non-wild card of the hand matches `colour`.
pub fn has_matching_colour(hand: &Vec<u8>, colour: u8) -> (r: bool)
    ensures
        r == spec_has_matching_colour(hand@, colour),
{
    let n = hand.len() / 2;
    let mut k: usize = 0;
    while k < n
        invariant
            hand@.len() <= usize::MAX,
            n == hand@.len() / 2,
            k <= n,
            forall|j: int|
                0 <= j < k ==> !(#[trigger] hand@[2 * j] == colour && hand@[2 * j] != 4 && hand@[2
                    * j + 1] != 13 && hand@[2 * j + 1] != 14),
        decreases n - k,
    {
        let c = hand[2 * k];
        let v = hand[2 * k + 1];
        if c == colour && c != 4 && v != 13 && v != 14 {
            return true;
        }
        k = k + 1;
    }
    proof {
        assert forall|j: int| 0 <= j && 2 * j + 1 < hand@.len() implies !(#[trigger] hand@[2 * j]
            == colour && hand@[2 * j] != 4 && hand@[2 * j + 1] != 13 && hand@[2 * j + 1]
            != 14) by {
            assert(j < n);
        }
    }
    false
}

/// Remove the first occurrence of `(colour, value)` from the hand.
pub fn remove_first_card(hand: &Vec<u8>, colour: u8, value: u8) -> (r: Vec<u8>)
    requires
        spec_card_in_hand(hand@, colour, value),
    ensures
        r@ == spec_remove_first(hand@, colour, value),
{
    let n = hand.len() / 2;
    let mut out: Vec<u8> = Vec::new();
    let mut removed: bool = false;
    let mut k: usize = 0;
    proof {
        assert(hand@.skip(0) =~= hand@);
        assert(out@ + spec_remove_first(hand@, colour, value) =~= spec_remove_first(
            hand@,
            colour,
            value,
        ));
        assert(out@ =~= hand@.subrange(0, 0));
    }
    while k < n
        invariant
            hand@.len() <= usize::MAX,
            n == hand@.len() / 2,
            k <= n,
            !removed ==> spec_remove_first(hand@, colour, value) == out@ + spec_remove_first(
                hand@.skip(2 * k as int),
                colour,
                value,
            ),
            !removed ==> out@ == hand@.subrange(0, 2 * k as int),
            removed ==> spec_remove_first(hand@, colour, value) == out@ + spec_take_pairs(
                hand@.skip(2 * k as int),
            ),
        decreases n - k,
    {
        let ghost out0 = out@;
        let ghost rest0 = hand@.skip(2 * k as int);
        proof {
            assert(rest0.len() >= 2);
            assert(rest0[0] == hand@[2 * k as int]);
            assert(rest0[1] == hand@[2 * k as int + 1]);
            assert(rest0.skip(2) =~= hand@.skip(2 * (k + 1) as int));
        }
        let c = hand[2 * k];
        let v = hand[2 * k + 1];
        if !removed && c == colour && v == value {
            removed = true;
        } else {
            let ghost was_removed = removed;
            out.push(c);
            out.push(v);
            proof {
                assert(out@ =~= out0 + seq![c, v]);
                if was_removed {
                    assert(out0 + spec_take_pairs(rest0) =~= out@ + spec_take_pairs(
                        rest0.skip(2),
                    ));
                } else {
                    assert(out0 + spec_remove_first(rest0, colour, value) =~= out@
                        + spec_remove_first(rest0.skip(2), colour, value));
                    assert(out@ =~= hand@.subrange(0, 2 * (k + 1) as int));
                }
            }
        }
        k = k + 1;
    }
    proof {
        assert(hand@.skip(2 * k as int).len() < 2);
        if !removed {
            lemma_full_walk_means_absent(hand@, colour, value, k as int);
        }
        assert(spec_remove_first(hand@, colour, value) =~= out@);
    }
    out
}

/// If the walk reached the end of the hand without finding `(colour,
/// value)`, the card is not in the hand.
proof fn lemma_full_walk_means_absent(hand: Seq<u8>, colour: u8, value: u8, n: int)
    requires
        n == hand.len() / 2,
        spec_remove_first(hand, colour, value) == hand.subrange(0, 2 * n) + spec_remove_first(
            hand.skip(2 * n),
            colour,
            value,
        ),
    ensures
        !spec_card_in_hand(hand, colour, value),
{
    if spec_card_in_hand(hand, colour, value) {
        let k = choose|k: int|
            0 <= k && 2 * k + 1 < hand.len() && #[trigger] spec_pair_matches(
                hand,
                k,
                colour,
                value,
            );
        lemma_remove_first_shorter(hand, colour, value, k);
        lemma_take_pairs_len(hand);
        assert(hand.skip(2 * n).len() < 2);
        assert(spec_remove_first(hand.skip(2 * n), colour, value) =~= Seq::<u8>::empty());
        assert(spec_remove_first(hand, colour, value).len() == 2 * n);
    }
}

/// When the card occurs at pair `k`, removing it shortens the flattened
/// pair sequence by one pair.
proof fn lemma_remove_first_shorter(hand: Seq<u8>, colour: u8, value: u8, k: int)
    requires
        0 <= k,
        2 * k + 1 < hand.len(),
        spec_pair_matches(hand, k, colour, value),
    ensures
        spec_remove_first(hand, colour, value).len() == spec_take_pairs(hand).len() - 2,
    decreases k,
{
    if hand[0] == colour && hand[1] == value {
        lemma_take_pairs_len(hand);
    } else {
        assert(k != 0);
        assert(hand.skip(2)[2 * (k - 1)] == hand[2 * k]);
        assert(hand.skip(2)[2 * (k - 1) + 1] == hand[2 * k + 1]);
        assert(spec_pair_matches(hand.skip(2), k - 1, colour, value));
        lemma_remove_first_shorter(hand.skip(2), colour, value, k - 1);
        lemma_take_pairs_len(hand);
    }
}

/// The flattened pair sequence holds exactly the paired bytes.
proof fn lemma_take_pairs_len(hand: Seq<u8>)
    ensures
        spec_take_pairs(hand).len() == 2 * (hand.len() / 2),
    decreases hand.len(),
{
    if hand.len() >= 2 {
        lemma_take_pairs_len(hand.skip(2));
    }
}

/// Check that every pair of the hand is a valid card.
pub fn hand_cards_valid(hand: &Vec<u8>) -> (r: bool)
    ensures
        r == spec_pairs_valid(hand@, (hand@.len() / 2) as int),
{
    let n = hand.len() / 2;
    let mut k: usize = 0;
    while k < n
        invariant
            hand@.len() <= usize::MAX,
            n == hand@.len() / 2,
            k <= n,
            spec_pairs_valid(hand@, k as int),
        decreases n - k,
    {
        let colour = hand[2 * k];
        let value = hand[2 * k + 1];
        let ok = if colour > 4 {
            false
        } else if colour == 4 {
            value == 13 || value == 14
        } else {
            value <= 12
        };
        if !ok {
            proof {
                assert(!spec_valid_card(hand@[2 * k as int], hand@[2 * k as int + 1]));
            }
            return false;
        }
        k = k + 1;
    }
    true
}

} // verus!
