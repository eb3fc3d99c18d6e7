//! The snake: an ordered body of grid cells (head first), a travel
//! direction, and the per-tick movement and collision algorithm.

use crate::color::Color;
use crate::entity::Entity;
use crate::grid::{in_bounds, Position, GRID_MAX_X, GRID_MAX_Y};
use vstd::prelude::*;

verus! {

/// The four axis-aligned travel directions.
#[derive(Clone, Copy, PartialEq, Eq, Structural, Debug)]
pub enum Direction {
    Up,
    Down,
    Left,
    Right,
}

impl Direction {
    /// The direct reverse of a direction.
    pub open spec fn opposite(self) -> Direction {
        match self {
            Direction::Up => Direction::Down,
            Direction::Down => Direction::Up,
            Direction::Left => Direction::Right,
            Direction::Right => Direction::Left,
        }
    }
}

/// The cell one step from `p` in direction `d`: right and left move along x,
/// up decreases y, down increases y. The result may lie off the grid; the
/// casts are exact whenever `p` is on the grid.
pub open spec fn next_head(p: Position, d: Direction) -> Position
    recommends
        in_bounds(p),
{
    match d {
        Direction::Right => Position { x: (p.x + 1) as i32, y: p.y },
        Direction::Left => Position { x: (p.x - 1) as i32, y: p.y },
        Direction::Up => Position { x: p.x, y: (p.y - 1) as i32 },
        Direction::Down => Position { x: p.x, y: (p.y + 1) as i32 },
    }
}

/// Index `i` is the first entity of `es` occupying cell `p`.
pub open spec fn first_hit_is(es: Seq<Entity>, p: Position, i: int) -> bool {
    &&& 0 <= i < es.len()
    &&& es[i].pos == p
    &&& forall|j: int| 0 <= j < i ==> es[j].pos != p
}

/// Some entity occupies `p`, and the first one to do so is food.
pub open spec fn hits_food(es: Seq<Entity>, p: Position) -> bool {
    exists|i: int| first_hit_is(es, p, i) && es[i].is_food
}

/// Some entity occupies `p`, and the first one to do so is a barrier.
pub open spec fn hits_barrier(es: Seq<Entity>, p: Position) -> bool {
    exists|i: int| first_hit_is(es, p, i) && !es[i].is_food
}

/// No entity occupies `p`.
pub open spec fn hits_none(es: Seq<Entity>, p: Position) -> bool {
    forall|i: int| 0 <= i < es.len() ==> es[i].pos != p
}

/// Cell `p` is one of the body segments.
pub open spec fn on_body(body: Seq<Position>, p: Position) -> bool {
    exists|i: int| 0 <= i < body.len() && body[i] == p
}

/// The hit predicates read only positions and food flags, so two entity
/// collections that agree on those — for instance, before and after a
/// recoloring pass — agree on every hit.
pub proof fn lemma_hits_ignore_color(es1: Seq<Entity>, es2: Seq<Entity>, p: Position)
    requires
        es1.len() == es2.len(),
        forall|i: int|
            0 <= i < es1.len() ==> es1[i].pos == es2[i].pos && es1[i].is_food == es2[i].is_food,
    ensures
        hits_food(es1, p) == hits_food(es2, p),
        hits_barrier(es1, p) == hits_barrier(es2, p),
        hits_none(es1, p) == hits_none(es2, p),
{
    assert forall|i: int| first_hit_is(es1, p, i) implies first_hit_is(es2, p, i) by {
        assert(forall|j: int| 0 <= j < i ==> es2[j].pos == es1[j].pos);
    }
    assert forall|i: int| first_hit_is(es2, p, i) implies first_hit_is(es1, p, i) by {
        assert(forall|j: int| 0 <= j < i ==> es1[j].pos == es2[j].pos);
    }
    if hits_food(es1, p) {
        let i = choose|i: int| first_hit_is(es1, p, i) && es1[i].is_food;
        assert(first_hit_is(es2, p, i) && es2[i].is_food);
    }
    if hits_food(es2, p) {
        let i = choose|i: int| first_hit_is(es2, p, i) && es2[i].is_food;
        assert(first_hit_is(es1, p, i) && es1[i].is_food);
    }
    if hits_barrier(es1, p) {
        let i = choose|i: int| first_hit_is(es1, p, i) && !es1[i].is_food;
        assert(first_hit_is(es2, p, i) && !es2[i].is_food);
    }
    if hits_barrier(es2, p) {
        let i = choose|i: int| first_hit_is(es2, p, i) && !es2[i].is_food;
        assert(first_hit_is(es1, p, i) && !es1[i].is_food);
    }
}

/// The snake. The body is ordered head first, tail last.
pub struct Snake {
    pub body: Vec<Position>,
    pub direction: Direction,
    pub food_is_eaten: bool,
    pub color: Color,
}

impl Snake {
    /// Well-formedness: the body is never empty and every segment lies on
    /// the grid.
    pub open spec fn wf(self) -> bool {
        &&& self.body@.len() >= 1
        &&& forall|i: int| 0 <= i < self.body@.len() ==> in_bounds(self.body@[i])
    }

    /// The head is the front segment of the body.
    pub open spec fn head(self) -> Position
        recommends
            self.body@.len() >= 1,
    {
        self.body@[0]
    }

    /// The starting snake: two segments at (0,0) and (0,1), heading right,
    /// in the red starting palette, with no food pending.
    pub fn new() -> (s: Snake)
        ensures
            s.wf(),
            s.body@ == seq![Position { x: 0, y: 0 }, Position { x: 0, y: 1 }],
            s.direction == Direction::Right,
            !s.food_is_eaten,
            s.color == crate::color::red(),
    {
        let body = vec![Position { x: 0, y: 0 }, Position { x: 0, y: 1 }];
        Snake {
            body,
            direction: Direction::Right,
            food_is_eaten: false,
            color: Color { red: 1, green: 0, blue: 0, alpha: 1 },
        }
    }

    /// One movement tick against the entity collection. The head advances one
    /// cell in the current direction; the move is fatal off the grid, on the
    /// first entity at the target cell when that entity is a barrier, or on
    /// any existing body segment; it grows the snake (keeping the tail) when
    /// that first entity is food; otherwise the snake slides (new head pushed,
    /// tail dropped). Entities are checked before the body, in collection
    /// order, so the first entity on the target cell decides. Returns whether
    /// the snake is still alive; on a fatal move the snake is left unchanged.
    pub fn update(&mut self, food_and_barriers: &Vec<Entity>) -> (alive: bool)
        requires
            old(self).wf(),
        ensures
            final(self).wf(),
            final(self).direction == old(self).direction,
            final(self).color == old(self).color,
            ({
                let nh = next_head(old(self).head(), old(self).direction);
                let es = food_and_barriers@;
                &&& (in_bounds(nh) ==> hits_food(es, nh) || hits_barrier(es, nh) || hits_none(
                    es,
                    nh,
                ))
                &&& (!in_bounds(nh) ==> !alive
                    && final(self).body@ == old(self).body@
                    && final(self).food_is_eaten == old(self).food_is_eaten)
                &&& (in_bounds(nh) && hits_food(es, nh) ==> alive
                    && final(self).body@ == seq![nh] + old(self).body@
                    && final(self).body@.len() == old(self).body@.len() + 1
                    && final(self).food_is_eaten)
                &&& (in_bounds(nh) && hits_barrier(es, nh) ==> !alive
                    && final(self).body@ == old(self).body@
                    && final(self).food_is_eaten == old(self).food_is_eaten)
                &&& (in_bounds(nh) && hits_none(es, nh) && on_body(old(self).body@, nh) ==> !alive
                    && final(self).body@ == old(self).body@
                    && final(self).food_is_eaten == old(self).food_is_eaten)
                &&& (in_bounds(nh) && hits_none(es, nh) && !on_body(old(self).body@, nh) ==> alive
                    && final(self).body@ == seq![nh] + old(self).body@.drop_last()
                    && final(self).body@.len() == old(self).body@.len()
                    && final(self).body@[0] == nh
                    && final(self).food_is_eaten == old(self).food_is_eaten)
            }),
    {
        proof {
            assert(in_bounds(old(self).body@[0]));
        }
        let head = self.body[0];
        let new_head = match self.direction {
            Direction::Right => Position { x: head.x + 1, y: head.y },
            Direction::Left => Position { x: head.x - 1, y: head.y },
            Direction::Up => Position { x: head.x, y: head.y - 1 },
            Direction::Down => Position { x: head.x, y: head.y + 1 },
        };
        proof {
            assert(new_head == next_head(old(self).head(), old(self).direction));
        }

        if new_head.x < 0 || new_head.x > GRID_MAX_X || new_head.y < 0 || new_head.y > GRID_MAX_Y {
            return false;
        }

        let ghost es = food_and_barriers@;
        let mut idx: usize = 0;
        while idx < food_and_barriers.len()
            invariant
                old(self).wf(),
                0 <= idx <= es.len(),
                es == food_and_barriers@,
                forall|j: int| 0 <= j < idx ==> es[j].pos != new_head,
                self.body@ == old(self).body@,
                self.direction == old(self).direction,
                self.food_is_eaten == old(self).food_is_eaten,
                self.color == old(self).color,
                in_bounds(new_head),
                new_head == next_head(old(self).head(), old(self).direction),
            decreases es.len() - idx,
        {
            let e = food_and_barriers[idx];
            if e.pos == new_head {
                if e.is_food {
                    proof {
                        assert(first_hit_is(es, new_head, idx as int) && es[idx as int].is_food);
                        assert(hits_food(es, new_head));
                    }
                    self.body.insert(0, new_head);
                    self.food_is_eaten = true;
                    proof {
                        assert(self.body@ =~= seq![new_head] + old(self).body@);
                        assert forall|i: int| 0 <= i < self.body@.len() implies in_bounds(
                            self.body@[i],
                        ) by {
                            if i > 0 {
                                assert(self.body@[i] == old(self).body@[i - 1]);
                            }
                        }
                        assert(self.wf());
                    }
                    return true;
                }
                proof {
                    assert(first_hit_is(es, new_head, idx as int) && !es[idx as int].is_food);
                    assert(hits_barrier(es, new_head));
                    assert forall|i: int| 0 <= i < self.body@.len() implies in_bounds(
                        self.body@[i],
                    ) by {
                        assert(self.body@[i] == old(self).body@[i]);
                    }
                    assert(self.wf());
                }
                return false;
            }
            idx += 1;
        }
        proof {
            assert(hits_none(es, new_head));
        }

        let mut k: usize = 0;
        let body_len = self.body.len();
        while k < body_len
            invariant
                old(self).wf(),
                0 <= k <= body_len,
                body_len == self.body@.len(),
                forall|j: int| 0 <= j < k ==> self.body@[j] != new_head,
                self.body@ == old(self).body@,
                self.direction == old(self).direction,
                self.food_is_eaten == old(self).food_is_eaten,
                self.color == old(self).color,
                in_bounds(new_head),
                hits_none(es, new_head),
                es == food_and_barriers@,
                new_head == next_head(old(self).head(), old(self).direction),
            decreases body_len - k,
        {
            let seg = self.body[k];
            if seg == new_head {
                proof {
                    assert(on_body(old(self).body@, new_head));
                    assert forall|i: int| 0 <= i < self.body@.len() implies in_bounds(
                        self.body@[i],
                    ) by {
                        assert(self.body@[i] == old(self).body@[i]);
                    }
                    assert(self.wf());
                }
                return false;
            }
            k += 1;
        }
        proof {
            assert(!on_body(old(self).body@, new_head));
        }

        self.body.insert(0, new_head);
        self.body.pop();
        proof {
            assert(self.body@ =~= seq![new_head] + old(self).body@.drop_last());
            assert forall|i: int| 0 <= i < self.body@.len() implies in_bounds(
                self.body@[i],
            ) by {
                if i > 0 {
                    assert(self.body@[i] == old(self).body@[i - 1]);
                }
            }
            assert(self.wf());
        }
        true
    }
}

} // verus!
