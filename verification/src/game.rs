//! The game state and its per-tick orchestration: flash-mode recoloring,
//! the snake's move against the entity collection, scoring, and entity
//! respawning, plus the mapping from key presses to direction changes and
//! the flash-mode toggle.

use crate::color::{
    black, entity_toggle, flash_background, flash_snake, green, red, white, Color,
};
use crate::entity::{random_position, Entity};
use crate::grid::{in_bounds, Position};
use crate::snake::{
    hits_barrier, hits_food, hits_none, lemma_hits_ignore_color, next_head, on_body, Direction,
    Snake,
};
use vstd::prelude::*;

verus! {

/// The key presses the game reacts to. Every other key is `Other` and has
/// no effect.
#[derive(Clone, Copy, PartialEq, Eq, Structural, Debug)]
pub enum GameKey {
    Up,
    Down,
    Left,
    Right,
    ToggleFlash,
    Other,
}

/// The direction after one key press: a directional key turns the snake
/// unless it points directly backwards, in which case — as for any
/// non-directional key — the old direction is kept.
pub open spec fn new_direction(d: Direction, key: GameKey) -> Direction {
    match key {
        GameKey::Up => if d != Direction::Down { Direction::Up } else { d },
        GameKey::Down => if d != Direction::Up { Direction::Down } else { d },
        GameKey::Right => if d != Direction::Left { Direction::Right } else { d },
        GameKey::Left => if d != Direction::Right { Direction::Left } else { d },
        GameKey::ToggleFlash => d,
        GameKey::Other => d,
    }
}

/// The whole game state: score, flash mode, the snake, and the entity
/// collection (one food item and the barriers).
pub struct Game {
    pub score: i32,
    pub epileptic_mode_on: bool,
    pub snake: Snake,
    pub food_and_barriers: Vec<Entity>,
    pub background_color: Color,
}

impl Game {
    /// Well-formedness: the snake is well-formed, no food consumption is
    /// left pending between ticks, and the score never goes negative.
    pub open spec fn wf(self) -> bool {
        &&& self.snake.wf()
        &&& !self.snake.food_is_eaten
        &&& 0 <= self.score
    }

    /// The starting state: score 0, flash mode off, a green background, the
    /// two-segment snake heading right, and seven entities — one food item
    /// and six barriers — each at a random cell of the grid.
    pub fn new() -> (g: Game)
        ensures
            g.wf(),
            g.score == 0,
            !g.epileptic_mode_on,
            g.background_color == green(),
            g.snake.body@ == seq![(Position { x: 0, y: 0 }), (Position { x: 0, y: 1 })],
            g.snake.direction == Direction::Right,
            g.snake.color == red(),
            g.food_and_barriers@.len() == 7,
            g.food_and_barriers@[0].is_food,
            g.food_and_barriers@[0].color == white(),
            forall|i: int|
                1 <= i < g.food_and_barriers@.len() ==> !g.food_and_barriers@[i].is_food
                    && g.food_and_barriers@[i].color == black(),
            forall|i: int|
                0 <= i < g.food_and_barriers@.len() ==> in_bounds(g.food_and_barriers@[i].pos),
    {
        let mut food_and_barriers: Vec<Entity> = Vec::new();
        food_and_barriers.push(Entity::new_food(random_position()));
        food_and_barriers.push(Entity::new_barrier(random_position()));
        food_and_barriers.push(Entity::new_barrier(random_position()));
        food_and_barriers.push(Entity::new_barrier(random_position()));
        food_and_barriers.push(Entity::new_barrier(random_position()));
        food_and_barriers.push(Entity::new_barrier(random_position()));
        food_and_barriers.push(Entity::new_barrier(random_position()));
        Game {
            score: 0,
            epileptic_mode_on: false,
            snake: Snake::new(),
            food_and_barriers,
            background_color: Color { red: 0, green: 1, blue: 0, alpha: 1 },
        }
    }

    /// One game tick. With flash mode on, the background and snake swing
    /// between the green/red and blue/green palettes and every entity
    /// recolors itself; then the snake advances one cell. A fatal move
    /// returns `false` and leaves score, body and entity positions as they
    /// were. Eating food returns `true`, adds one to the score, grows the
    /// body by one, and sends every entity its respawn call — food lands on
    /// a fresh random cell, barriers stay put. A plain move returns `true`
    /// and slides the body.
    pub fn update(&mut self) -> (alive: bool)
        requires
            old(self).wf(),
            old(self).score < i32::MAX,
        ensures
            final(self).wf(),
            final(self).epileptic_mode_on == old(self).epileptic_mode_on,
            final(self).snake.direction == old(self).snake.direction,
            final(self).food_and_barriers@.len() == old(self).food_and_barriers@.len(),
            final(self).background_color == (if old(self).epileptic_mode_on {
                flash_background(old(self).background_color)
            } else {
                old(self).background_color
            }),
            final(self).snake.color == (if old(self).epileptic_mode_on {
                flash_snake(old(self).background_color)
            } else {
                old(self).snake.color
            }),
            forall|i: int|
                0 <= i < old(self).food_and_barriers@.len() ==> final(self).food_and_barriers@[i].is_food
                    == old(self).food_and_barriers@[i].is_food,
            forall|i: int|
                0 <= i < old(self).food_and_barriers@.len() ==> final(self).food_and_barriers@[i].color
                    == (if old(self).epileptic_mode_on {
                    entity_toggle(old(self).food_and_barriers@[i].color)
                } else {
                    old(self).food_and_barriers@[i].color
                }),
            ({
                let nh = next_head(old(self).snake.head(), old(self).snake.direction);
                let es = old(self).food_and_barriers@;
                let unchanged_positions = forall|i: int|
                    0 <= i < es.len() ==> final(self).food_and_barriers@[i].pos == es[i].pos;
                &&& (!in_bounds(nh) ==> !alive
                    && final(self).snake.body@ == old(self).snake.body@
                    && final(self).score == old(self).score
                    && unchanged_positions)
                &&& (in_bounds(nh) && hits_food(es, nh) ==> alive
                    && final(self).snake.body@ == seq![nh] + old(self).snake.body@
                    && final(self).score == old(self).score + 1
                    && (forall|i: int|
                        0 <= i < es.len() && !es[i].is_food
                            ==> final(self).food_and_barriers@[i].pos == es[i].pos)
                    && (forall|i: int|
                        0 <= i < es.len() && es[i].is_food
                            ==> in_bounds(final(self).food_and_barriers@[i].pos)))
                &&& (in_bounds(nh) && hits_barrier(es, nh) ==> !alive
                    && final(self).snake.body@ == old(self).snake.body@
                    && final(self).score == old(self).score
                    && unchanged_positions)
                &&& (in_bounds(nh) && hits_none(es, nh) && on_body(old(self).snake.body@, nh)
                    ==> !alive
                    && final(self).snake.body@ == old(self).snake.body@
                    && final(self).score == old(self).score
                    && unchanged_positions)
                &&& (in_bounds(nh) && hits_none(es, nh) && !on_body(old(self).snake.body@, nh)
                    ==> alive
                    && final(self).snake.body@ == seq![nh] + old(self).snake.body@.drop_last()
                    && final(self).score == old(self).score
                    && unchanged_positions)
            }),
    {
        let ghost oldes = self.food_and_barriers@;
        let ghost nh = next_head(old(self).snake.head(), old(self).snake.direction);
        if self.epileptic_mode_on {
            if self.background_color.green == 1 {
                self.background_color = Color { red: 0, green: 0, blue: 1, alpha: 1 };
                self.snake.color = Color { red: 0, green: 1, blue: 0, alpha: 1 };
            } else {
                self.background_color = Color { red: 0, green: 1, blue: 0, alpha: 1 };
                self.snake.color = Color { red: 1, green: 0, blue: 0, alpha: 1 };
            }
            let mut i: usize = 0;
            let n = self.food_and_barriers.len();
            while i < n
                invariant
                    old(self).wf(),
                    old(self).epileptic_mode_on,
                    0 <= i <= n,
                    n == self.food_and_barriers@.len(),
                    oldes.len() == n,
                    forall|j: int|
                        0 <= j < i ==> self.food_and_barriers@[j].pos == oldes[j].pos
                            && self.food_and_barriers@[j].is_food == oldes[j].is_food
                            && self.food_and_barriers@[j].color == entity_toggle(oldes[j].color),
                    forall|j: int| i <= j < n ==> self.food_and_barriers@[j] == oldes[j],
                    self.epileptic_mode_on == old(self).epileptic_mode_on,
                    self.score == old(self).score,
                    self.background_color == flash_background(old(self).background_color),
                    self.snake.color == flash_snake(old(self).background_color),
                    self.snake.body@ == old(self).snake.body@,
                    self.snake.direction == old(self).snake.direction,
                    self.snake.food_is_eaten == old(self).snake.food_is_eaten,
                decreases n - i,
            {
                let mut e = self.food_and_barriers[i];
                e.change_color();
                self.food_and_barriers[i] = e;
                i += 1;
            }
        }

        let ghost mid_es = self.food_and_barriers@;
        proof {
            lemma_hits_ignore_color(
                mid_es,
                oldes,
                next_head(old(self).snake.head(), old(self).snake.direction),
            );
        }

        if self.snake.update(&self.food_and_barriers) {
            if self.snake.food_is_eaten {
                self.snake.food_is_eaten = false;
                self.score = self.score + 1;
                let mut i: usize = 0;
                let n = self.food_and_barriers.len();
                while i < n
                    invariant
                        old(self).wf(),
                        old(self).score < i32::MAX,
                        0 <= i <= n,
                        n == self.food_and_barriers@.len(),
                        mid_es.len() == n,
                        self.epileptic_mode_on == old(self).epileptic_mode_on,
                        self.score == old(self).score + 1,
                        self.background_color == (if old(self).epileptic_mode_on {
                            flash_background(old(self).background_color)
                        } else {
                            old(self).background_color
                        }),
                        self.snake.color == (if old(self).epileptic_mode_on {
                            flash_snake(old(self).background_color)
                        } else {
                            old(self).snake.color
                        }),
                        self.snake.direction == old(self).snake.direction,
                        self.snake.wf(),
                        !self.snake.food_is_eaten,
                        self.snake.body@ == seq![nh] + old(self).snake.body@,
                        forall|j: int|
                            0 <= j < i ==> self.food_and_barriers@[j].is_food == mid_es[j].is_food
                                && self.food_and_barriers@[j].color == mid_es[j].color
                                && (!mid_es[j].is_food ==> self.food_and_barriers@[j].pos
                                    == mid_es[j].pos)
                                && (mid_es[j].is_food ==> in_bounds(
                                    self.food_and_barriers@[j].pos,
                                )),
                        forall|j: int| i <= j < n ==> self.food_and_barriers@[j] == mid_es[j],
                    decreases n - i,
                {
                    let mut e = self.food_and_barriers[i];
                    e.update();
                    self.food_and_barriers[i] = e;
                    i += 1;
                }
            }
            true
        } else {
            false
        }
    }

    /// One key press: a directional key turns the snake unless it points
    /// directly backwards, the flash toggle flips flash mode, and any other
    /// key changes nothing. The direction can never become the direct
    /// reverse of the direction it had before the press.
    pub fn pressed(&mut self, key: GameKey)
        ensures
            final(self).snake.direction == new_direction(old(self).snake.direction, key),
            final(self).snake.direction != old(self).snake.direction.opposite(),
            final(self).epileptic_mode_on == (if key == GameKey::ToggleFlash {
                !old(self).epileptic_mode_on
            } else {
                old(self).epileptic_mode_on
            }),
            final(self).score == old(self).score,
            final(self).background_color == old(self).background_color,
            final(self).snake.body@ == old(self).snake.body@,
            final(self).snake.food_is_eaten == old(self).snake.food_is_eaten,
            final(self).snake.color == old(self).snake.color,
            final(self).food_and_barriers@ == old(self).food_and_barriers@,
            old(self).wf() ==> final(self).wf(),
    {
        let last_direction = self.snake.direction;
        self.snake.direction = match key {
            GameKey::Up => if last_direction != Direction::Down {
                Direction::Up
            } else {
                last_direction
            },
            GameKey::Down => if last_direction != Direction::Up {
                Direction::Down
            } else {
                last_direction
            },
            GameKey::Right => if last_direction != Direction::Left {
                Direction::Right
            } else {
                last_direction
            },
            GameKey::Left => if last_direction != Direction::Right {
                Direction::Left
            } else {
                last_direction
            },
            GameKey::ToggleFlash => last_direction,
            GameKey::Other => last_direction,
        };

        if key == GameKey::ToggleFlash {
            self.epileptic_mode_on = !self.epileptic_mode_on;
        }
    }
}

} // verus!
