//! Laws of the game that cut across single functions, stated as proof
//! functions so that they are checked once for every input.

use crate::color::{
    black, blue, entity_toggle, flash_background, flash_snake, green, white, Color,
};
use crate::game::{new_direction, GameKey};
use crate::snake::Direction;
use vstd::prelude::*;

verus! {

/// No single key press can turn the snake into the direct reverse of the
/// direction it was travelling before the press.
pub proof fn lemma_no_instant_reversal(d: Direction, key: GameKey)
    ensures
        new_direction(d, key) != d.opposite(),
{
}

/// The flash-mode flag after `n` presses of the toggle key, each of which
/// flips it.
pub open spec fn flag_after_presses(flag: bool, n: nat) -> bool
    decreases n,
{
    if n == 0 {
        flag
    } else {
        !flag_after_presses(flag, (n - 1) as nat)
    }
}

/// Pressing the flash toggle an even number of times restores the flag,
/// an odd number of times flips it.
pub proof fn lemma_toggle_parity(flag: bool, n: nat)
    ensures
        flag_after_presses(flag, n) == (if n % 2 == 0 {
            flag
        } else {
            !flag
        }),
    decreases n,
{
    if n > 0 {
        lemma_toggle_parity(flag, (n - 1) as nat);
    }
}

/// Recoloring an entity twice restores its color, for the two colors the
/// entity palette actually uses. (The toggle is not an involution on
/// arbitrary colors: any color with the red channel off — red included —
/// comes back as white.)
pub proof fn lemma_entity_recolor_involution(c: Color)
    requires
        c == white() || c == black(),
    ensures
        entity_toggle(entity_toggle(c)) == c,
{
}

/// Two flash ticks restore the background color, for the two colors the
/// background swings between, and with it the snake color the next flash
/// would pick.
pub proof fn lemma_flash_round_trip(bg: Color)
    requires
        bg == green() || bg == blue(),
    ensures
        flash_background(flash_background(bg)) == bg,
        flash_snake(flash_background(flash_background(bg))) == flash_snake(bg),
{
}

} // verus!
