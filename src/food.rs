use rand::rngs::StdRng;
use vstd::prelude::*;

use crate::config::GridSize;
use crate::random::gen_below;
use crate::snake::{Position, Snake};

verus! {

/// Normal food, or super food with a tick countdown.
#[derive(Debug, Clone, Copy, PartialEq, Eq, Structural)]
pub enum FoodKind {
    Normal,
    Super { ticks_remaining: u32 },
}

/// A food item on the board.
#[derive(Debug, Clone, Copy, PartialEq, Eq, Structural)]
pub struct Food {
    pub position: Position,
    pub kind: FoodKind,
}

impl Food {
    /// Score value (before multipliers) of eating this food.
    pub open spec fn points_spec(self) -> nat {
        if self.kind is Super {
            5
        } else {
            1
        }
    }

    /// Segments gained by eating this food.
    pub open spec fn growth_spec(self) -> nat {
        if self.kind is Super {
            5
        } else {
            1
        }
    }

    pub open spec fn new_spec(position: Position) -> Food {
        Food { position, kind: FoodKind::Normal }
    }

    /// Creates normal food at `position`.
    pub fn new(position: Position) -> (r: Food)
        ensures
            r == Food::new_spec(position),
    {
        Food { position, kind: FoodKind::Normal }
    }

    /// Creates super food at `position` with a countdown of `ticks`.
    pub fn new_super(position: Position, ticks: u32) -> (r: Food)
        ensures
            r == (Food { position, kind: FoodKind::Super { ticks_remaining: ticks } }),
    {
        Food { position, kind: FoodKind::Super { ticks_remaining: ticks } }
    }

    /// Returns the score value granted when eaten: 1 for normal, 5 for super food.
    pub fn points(self) -> (r: u32)
        ensures
            r == self.points_spec(),
    {
        match self.kind {
            FoodKind::Normal => 1,
            FoodKind::Super { .. } => 5,
        }
    }

    /// Returns the segments gained when eaten: 1 for normal, 5 for super food.
    pub fn growth(self) -> (r: u32)
        ensures
            r == self.growth_spec(),
    {
        match self.kind {
            FoodKind::Normal => 1,
            FoodKind::Super { .. } => 5,
        }
    }

    /// Returns true for super food.
    pub fn is_super(self) -> (r: bool)
        ensures
            r == self.kind is Super,
    {
        match self.kind {
            FoodKind::Normal => false,
            FoodKind::Super { .. } => true,
        }
    }

    /// Counts a super food timer down by one (never below zero) and reports
    /// whether it is still running. Normal food is unchanged and reports true.
    pub fn tick(&mut self) -> (alive: bool)
        ensures
            final(self).position == old(self).position,
            match old(self).kind {
                FoodKind::Normal => alive && final(self).kind == FoodKind::Normal,
                FoodKind::Super { ticks_remaining: t } => {
                    let t2 = if t > 0 {
                        (t - 1) as u32
                    } else {
                        0u32
                    };
                    &&& final(self).kind == (FoodKind::Super { ticks_remaining: t2 })
                    &&& alive == (t2 > 0)
                },
            },
    {
        match self.kind {
            FoodKind::Normal => true,
            FoodKind::Super { ticks_remaining } => {
                let left = ticks_remaining.saturating_sub(1);
                self.kind = FoodKind::Super { ticks_remaining: left };
                left > 0
            },
        }
    }

    /// Turns super food into normal food; normal food is unchanged.
    pub fn degrade(&mut self)
        ensures
            *final(self) == (Food { position: old(self).position, kind: FoodKind::Normal }),
    {
        self.kind = FoodKind::Normal;
    }

    /// Spawns normal food on a random cell not occupied by the snake.
    pub fn spawn(rng: &mut StdRng, bounds: GridSize, snake: &Snake) -> (r: Option<Food>)
        ensures
            r is None <==> (forall|p: Position| !is_free(p, bounds, snake, seq![])),
            r is None ==> *final(rng) == *old(rng),
            r matches Some(f) ==> exists|i: int|
                0 <= i < free_in_order(bounds, snake, seq![]).len() && f == Food::new_spec(
                    free_in_order(bounds, snake, seq![])[i],
                ),
            r matches Some(f) ==> f.kind == FoodKind::Normal && is_free(
                f.position,
                bounds,
                snake,
                seq![],
            ),
    {
        match spawn_position(rng, bounds, snake) {
            Some(p) => Some(Food::new(p)),
            None => None,
        }
    }
}

/// Some food of `foods` lies at `p`.
pub open spec fn food_at(foods: Seq<Food>, p: Position) -> bool {
    exists|i: int| 0 <= i < foods.len() && #[trigger] foods[i].position == p
}

/// `p` is on the board, and neither the snake nor any of `foods` is there.
pub open spec fn is_free(p: Position, bounds: GridSize, snake: &Snake, foods: Seq<Food>) -> bool {
    p.in_bounds(bounds) && !snake.occupies_spec(p) && !food_at(foods, p)
}

/// Returns true when some food of `foods` lies at `p`.
pub fn food_at_position(foods: &[Food], p: Position) -> (r: bool)
    ensures
        r == food_at(foods@, p),
{
    let mut i: usize = 0;
    while i < foods.len()
        invariant
            i <= foods@.len(),
            forall|j: int| 0 <= j < i ==> foods@[j].position != p,
        decreases foods@.len() - i,
    {
        if foods[i].position == p {
            return true;
        }
        i = i + 1;
    }
    false
}

/// The cell at index `i` when the board is read row by row.
pub open spec fn cell_at_index(bounds: GridSize, i: int) -> Position {
    Position { x: (i % bounds.width as int) as i32, y: (i / bounds.width as int) as i32 }
}

/// The free cells among the first `n` cells read row by row, in that order.
pub open spec fn free_prefix(bounds: GridSize, snake: &Snake, foods: Seq<Food>, n: nat) -> Seq<
    Position,
>
    decreases n,
{
    if n == 0 {
        seq![]
    } else {
        let prev = free_prefix(bounds, snake, foods, (n - 1) as nat);
        let p = cell_at_index(bounds, n - 1);
        if is_free(p, bounds, snake, foods) {
            prev.push(p)
        } else {
            prev
        }
    }
}

/// Every free cell of the board, row by row (top row first, left to right).
pub open spec fn free_in_order(bounds: GridSize, snake: &Snake, foods: Seq<Food>) -> Seq<Position> {
    free_prefix(bounds, snake, foods, bounds.cells())
}

proof fn lemma_cell_at_index(bounds: GridSize, x: int, y: int)
    requires
        0 <= x < bounds.width,
        0 <= y,
    ensures
        cell_at_index(bounds, y * bounds.width + x) == (Position { x: x as i32, y: y as i32 }),
        y * bounds.width + x + 1 == y * bounds.width + (x + 1),
{
    vstd::arithmetic::div_mod::lemma_fundamental_div_mod_converse(
        y * bounds.width + x,
        bounds.width as int,
        y,
        x,
    );
}

/// Lists, row by row, every cell that is free of the snake and of `foods`.
pub fn free_cells(bounds: GridSize, snake: &Snake, foods: &[Food]) -> (r: Vec<Position>)
    ensures
        r@ == free_in_order(bounds, snake, foods@),
        forall|p: Position| r@.contains(p) <==> is_free(p, bounds, snake, foods@),
        r@.no_duplicates(),
{
    let mut out: Vec<Position> = Vec::new();
    let h: i32 = bounds.height as i32;
    let w: i32 = bounds.width as i32;
    let mut y: i32 = 0;
    while y < h
        invariant
            0 <= y <= h,
            h == bounds.height,
            w == bounds.width,
            forall|p: Position|
                out@.contains(p) <==> (is_free(p, bounds, snake, foods@) && p.y < y),
            out@.no_duplicates(),
            out@ == free_prefix(bounds, snake, foods@, (y * w) as nat),
        decreases h - y,
    {
        let mut x: i32 = 0;
        while x < w
            invariant
                0 <= y < h,
                0 <= x <= w,
                h == bounds.height,
                w == bounds.width,
                forall|p: Position|
                    out@.contains(p) <==> (is_free(p, bounds, snake, foods@) && (p.y < y || (p.y
                        == y && p.x < x))),
                out@.no_duplicates(),
                out@ == free_prefix(bounds, snake, foods@, (y * w + x) as nat),
            decreases w - x,
        {
            let p = Position { x, y };
            let ghost before = out@;
            proof {
                lemma_cell_at_index(bounds, x as int, y as int);
                assert(y * w + x >= 0) by (nonlinear_arith)
                    requires
                        y >= 0,
                        w >= 0,
                        x >= 0,
                ;
            }
            if !snake.occupies(p) && !food_at_position(foods, p) {
                out.push(p);
                assert(out@.no_duplicates()) by {
                    assert forall|i: int, j: int|
                        0 <= i < out@.len() && 0 <= j < out@.len() && i != j implies out@[i]
                        != out@[j] by {
                        if j == before.len() {
                            assert(before.contains(before[i]));
                        } else if i == before.len() {
                            assert(before.contains(before[j]));
                        } else {
                            assert(before[i] != before[j]);
                        }
                    }
                }
                assert forall|q: Position|
                    out@.contains(q) <==> (is_free(q, bounds, snake, foods@) && (q.y < y || (q.y
                        == y && q.x < x + 1))) by {
                    if out@.contains(q) && q != p {
                        let k = choose|k: int| 0 <= k < out@.len() && out@[k] == q;
                        assert(before[k] == q);
                    }
                    if before.contains(q) {
                        let k = choose|k: int| 0 <= k < before.len() && before[k] == q;
                        assert(out@[k] == q);
                    }
                    if q == p {
                        assert(out@[before.len() as int] == q);
                    }
                }
            }
            x = x + 1;
        }
        assert(y * w + w == (y + 1) * w) by (nonlinear_arith);
        y = y + 1;
    }
    assert(h * w == bounds.cells()) by (nonlinear_arith)
        requires
            h == bounds.height,
            w == bounds.width,
            bounds.cells() == (bounds.width as nat) * (bounds.height as nat),
    ;
    out
}

/// Returns a random cell not occupied by the snake, or `None` when there is none.
pub fn spawn_position(rng: &mut StdRng, bounds: GridSize, snake: &Snake) -> (r: Option<Position>)
    ensures
        r is None <==> free_in_order(bounds, snake, seq![]).len() == 0,
        r is None <==> (forall|p: Position| !is_free(p, bounds, snake, seq![])),
        r is None ==> *final(rng) == *old(rng),
        r matches Some(p) ==> is_free(p, bounds, snake, seq![]),
        r matches Some(p) ==> exists|i: int|
            0 <= i < free_in_order(bounds, snake, seq![]).len() && p == free_in_order(
                bounds,
                snake,
                seq![],
            )[i],
{
    let no_food: Vec<Food> = Vec::new();
    let candidates = free_cells(bounds, snake, no_food.as_slice());
    assert(no_food@ =~= seq![]);
    if candidates.len() == 0 {
        assert forall|p: Position| !is_free(p, bounds, snake, seq![]) by {
            if is_free(p, bounds, snake, seq![]) {
                assert(candidates@.contains(p));
            }
        }
        return None;
    }
    let index = gen_below(rng, candidates.len());
    assert(candidates@.contains(candidates@[index as int]));
    Some(candidates[index])
}

/// Returns normal food on a random cell free of the snake and of `existing_foods`,
/// or `None` when no such cell is left.
pub fn spawn_food_avoiding(
    rng: &mut StdRng,
    bounds: GridSize,
    snake: &Snake,
    existing_foods: &[Food],
) -> (r: Option<Food>)
    ensures
        r is None <==> free_in_order(bounds, snake, existing_foods@).len() == 0,
        r is None <==> (forall|p: Position| !is_free(p, bounds, snake, existing_foods@)),
        r is None ==> *final(rng) == *old(rng),
        r matches Some(f) ==> exists|i: int|
            0 <= i < free_in_order(bounds, snake, existing_foods@).len() && f == Food::new_spec(
                free_in_order(bounds, snake, existing_foods@)[i],
            ),
        r matches Some(f) ==> f.kind == FoodKind::Normal && is_free(
            f.position,
            bounds,
            snake,
            existing_foods@,
        ),
{
    let candidates = free_cells(bounds, snake, existing_foods);
    if candidates.len() == 0 {
        assert forall|p: Position| !is_free(p, bounds, snake, existing_foods@) by {
            if is_free(p, bounds, snake, existing_foods@) {
                assert(candidates@.contains(p));
            }
        }
        return None;
    }
    let index = gen_below(rng, candidates.len());
    assert(candidates@.contains(candidates@[index as int]));
    Some(Food::new(candidates[index]))
}

} // verus!
