//! Colors, modelled as four integer channels that are either fully off (0)
//! or fully on (1), together with the fixed palettes of the game and the
//! recoloring rules of flash mode.

use vstd::prelude::*;

verus! {

/// A display color with red, green, blue and alpha channels.
/// The game only ever uses channel values 0 (off) and 1 (on).
#[derive(Clone, Copy, PartialEq, Eq, Structural, Debug)]
pub struct Color {
    pub red: u8,
    pub green: u8,
    pub blue: u8,
    pub alpha: u8,
}

/// The color of food entities, and one pole of the entity flash toggle.
pub open spec fn white() -> Color {
    Color { red: 1, green: 1, blue: 1, alpha: 1 }
}

/// The color of barrier entities, and the other pole of the entity flash toggle.
pub open spec fn black() -> Color {
    Color { red: 0, green: 0, blue: 0, alpha: 1 }
}

/// The snake's starting color.
pub open spec fn red() -> Color {
    Color { red: 1, green: 0, blue: 0, alpha: 1 }
}

/// The starting background color, and the snake's alternate flash color.
pub open spec fn green() -> Color {
    Color { red: 0, green: 1, blue: 0, alpha: 1 }
}

/// The alternate flash background color.
pub open spec fn blue() -> Color {
    Color { red: 0, green: 0, blue: 1, alpha: 1 }
}

/// How an entity recolors itself on each flash tick: a color whose first
/// (red) channel is on becomes black, any other color becomes white.
pub open spec fn entity_toggle(c: Color) -> Color {
    if c.red == 1 {
        black()
    } else {
        white()
    }
}

/// The background color after one flash tick: it is chosen by the old
/// background's green channel, swinging between green and blue.
pub open spec fn flash_background(bg: Color) -> Color {
    if bg.green == 1 {
        blue()
    } else {
        green()
    }
}

/// The snake color after one flash tick: it is chosen by the old
/// background's green channel, swinging between green and red in step
/// with the background.
pub open spec fn flash_snake(bg: Color) -> Color {
    if bg.green == 1 {
        green()
    } else {
        red()
    }
}

} // verus!
