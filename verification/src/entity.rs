//! Game entities: food and barriers. Both occupy one grid cell, carry a
//! display color, and share a small capability set — report their position,
//! say whether they can be eaten, recolor themselves in flash mode, and
//! respawn. Food respawns to a fresh random cell when eaten; a barrier's
//! respawn is a no-op.

use crate::color::{black, entity_toggle, white, Color};
use crate::grid::{in_bounds, Position, GRID_MAX_X, GRID_MAX_Y};
use crate::rng::random_in_range;
use vstd::prelude::*;

verus! {

/// A food item or a barrier on the grid. The `is_food` flag tells the two
/// apart: food is collectible, a barrier is deadly.
#[derive(Clone, Copy, PartialEq, Eq, Structural, Debug)]
pub struct Entity {
    pub is_food: bool,
    pub pos: Position,
    pub color: Color,
}

/// A uniformly random grid cell; both coordinates are sampled independently
/// over the whole grid.
pub fn random_position() -> (p: Position)
    ensures
        in_bounds(p),
{
    let x = random_in_range(0, GRID_MAX_X);
    let y = random_in_range(0, GRID_MAX_Y);
    Position { x, y }
}

impl Entity {
    /// A food entity at the given cell, in the food palette (white).
    pub fn new_food(pos: Position) -> (e: Entity)
        ensures
            e.is_food,
            e.pos == pos,
            e.color == white(),
    {
        Entity { is_food: true, pos, color: Color { red: 1, green: 1, blue: 1, alpha: 1 } }
    }

    /// A barrier entity at the given cell, in the barrier palette (black).
    pub fn new_barrier(pos: Position) -> (e: Entity)
        ensures
            !e.is_food,
            e.pos == pos,
            e.color == black(),
    {
        Entity { is_food: false, pos, color: Color { red: 0, green: 0, blue: 0, alpha: 1 } }
    }

    /// The cell this entity occupies.
    pub fn get_pos(&self) -> (p: Position)
        ensures
            p == self.pos,
    {
        self.pos
    }

    /// Whether this entity is collectible food.
    pub fn get_is_food(&self) -> (b: bool)
        ensures
            b == self.is_food,
    {
        self.is_food
    }

    /// Move this entity to the given cell — but only food moves; a barrier
    /// stays where it was built.
    pub fn respawn_to(&mut self, p: Position)
        ensures
            final(self).is_food == old(self).is_food,
            final(self).color == old(self).color,
            old(self).is_food ==> final(self).pos == p,
            !old(self).is_food ==> final(self).pos == old(self).pos,
    {
        if self.is_food {
            self.pos = p;
        }
    }

    /// The per-tick entity update: food respawns to a fresh random cell on
    /// the grid, a barrier does nothing.
    pub fn update(&mut self)
        ensures
            final(self).is_food == old(self).is_food,
            final(self).color == old(self).color,
            old(self).is_food ==> in_bounds(final(self).pos),
            !old(self).is_food ==> final(self).pos == old(self).pos,
    {
        if self.is_food {
            let p = random_position();
            self.respawn_to(p);
        }
    }

    /// The flash-mode recoloring: a color with the red channel on becomes
    /// black, anything else becomes white.
    pub fn change_color(&mut self)
        ensures
            final(self).is_food == old(self).is_food,
            final(self).pos == old(self).pos,
            final(self).color == entity_toggle(old(self).color),
    {
        if self.color.red == 1 {
            self.color = Color { red: 0, green: 0, blue: 0, alpha: 1 };
        } else {
            self.color = Color { red: 1, green: 1, blue: 1, alpha: 1 };
        }
    }
}

} // verus!
