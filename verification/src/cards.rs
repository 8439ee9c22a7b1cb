//! Card constants and the play-legality rule.
//!
//! A card is a `(colour, value)` pair.  Colours `0..=3` are the four suits and
//! `4` is wild; values `0..=9` are numerals, `10` Skip, `11` Reverse,
//! `12` DrawTwo, `13` Wild and `14` WildDraw4.  A wild-coloured card may only
//! carry value `13` or `14`; a suit-coloured card only `0..=12`.

use vstd::prelude::*;

verus! {

pub const RED: u32 = 0;

pub const YELLOW: u32 = 1;

pub const GREEN: u32 = 2;

pub const BLUE: u32 = 3;

pub const WILD: u32 = 4;

pub const SKIP: u32 = 10;

pub const REVERSE: u32 = 11;

pub const DRAW_TWO: u32 = 12;

pub const WILD_CARD: u32 = 13;

pub const WILD_DRAW4: u32 = 14;

pub const INITIAL_HAND_SIZE: u32 = 7;

pub const BYTES_PER_CARD: u32 = 2;

/// A `(colour, value)` pair is a syntactically valid card: the colour is one
/// of the five known colours, a wild card carries value 13 or 14, and a
/// suit-coloured card carries a value of at most 12.
pub open spec fn spec_valid_card(colour: u8, value: u8) -> bool {
    &&& colour <= 4
    &&& if colour == 4 {
        value == 13 || value == 14
    } else {
        value <= 12
    }
}

/// The play-legality rule: a card may be laid on the discard pile when it is
/// wild, when its colour is the colour in force, or when its value equals the
/// top card's value and is no wild variant (at most 12).
pub open spec fn spec_can_play(
    card_colour: u32,
    card_value: u32,
    active_colour: u32,
    top_value: u32,
) -> bool {
    ||| card_colour == WILD
    ||| card_colour == active_colour
    ||| (card_value == top_value && card_value <= DRAW_TWO)
}

/// Decide whether a claimed card is legal against the colour in force and the
/// top card's value.
pub fn can_play(card_colour: u32, card_value: u32, active_colour: u32, top_value: u32) -> (r: bool)
    ensures
        r == spec_can_play(card_colour, card_value, active_colour, top_value),
{
    if card_colour == WILD {
        return true;
    }
    if card_colour == active_colour {
        return true;
    }
    if card_value == top_value && card_value <= DRAW_TWO {
        return true;
    }
    false
}

} // verus!
