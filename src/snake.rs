use std::collections::VecDeque;
use vstd::prelude::*;

use crate::config::GridSize;
use crate::input::Direction;

verus! {

/// Grid position in logical cell coordinates.
#[derive(Debug, Clone, Copy, PartialEq, Eq, Structural, Hash)]
pub struct Position {
    pub x: i32,
    pub y: i32,
}

impl Position {
    /// The position lies inside the board.
    pub open spec fn in_bounds(self, bounds: GridSize) -> bool {
        0 <= self.x && 0 <= self.y && self.x < bounds.width as int && self.y < bounds.height as int
    }

    /// One step in any direction stays inside `i32`.
    pub open spec fn can_step(self) -> bool {
        i32::MIN < self.x && self.x < i32::MAX && i32::MIN < self.y && self.y < i32::MAX
    }

    /// Returns true when the position lies inside the bounds.
    pub fn is_within_bounds(self, bounds: GridSize) -> (r: bool)
        ensures
            r == self.in_bounds(bounds),
    {
        self.x >= 0 && self.y >= 0 && self.x < bounds.width as i32 && self.y < bounds.height as i32
    }

    /// Returns this position wrapped into bounds on both axes.
    pub fn wrapped(self, bounds: GridSize) -> (r: Position)
        requires
            bounds.width > 0,
            bounds.height > 0,
        ensures
            r.x == self.x as int % bounds.width as int,
            r.y == self.y as int % bounds.height as int,
            r.in_bounds(bounds),
    {
        Position {
            x: wrap_axis(self.x, bounds.width as i32),
            y: wrap_axis(self.y, bounds.height as i32),
        }
    }
}

/// `p` wrapped into the board on both axes.
pub open spec fn wrap_spec(p: Position, bounds: GridSize) -> Position {
    Position {
        x: (p.x as int % bounds.width as int) as i32,
        y: (p.y as int % bounds.height as int) as i32,
    }
}

/// `value` reduced into `0..upper_bound`.
fn wrap_axis(value: i32, upper_bound: i32) -> (r: i32)
    requires
        upper_bound > 0,
    ensures
        r == value as int % upper_bound as int,
        0 <= r < upper_bound,
{
    let n: i64 = upper_bound as i64;
    if value >= 0 {
        ((value as i64) % n) as i32
    } else {
        let a: i64 = -(value as i64);
        let m: i64 = a % n;
        proof {
            let q = a as int / n as int;
            assert(a as int == q * n + m) by {
                vstd::arithmetic::div_mod::lemma_fundamental_div_mod(a as int, n as int);
            }
            assert(value as int == (-q) * n + 0 - m) by (nonlinear_arith)
                requires
                    a as int == q * n + m,
                    a == -(value as int),
            ;
            assert((-q) * n - n == (-q - 1) * n) by (nonlinear_arith);
            if m == 0 {
                vstd::arithmetic::div_mod::lemma_fundamental_div_mod_converse(
                    value as int,
                    n as int,
                    -q,
                    0,
                );
            } else {
                vstd::arithmetic::div_mod::lemma_fundamental_div_mod_converse(
                    value as int,
                    n as int,
                    -q - 1,
                    n - m,
                );
            }
        }
        if m == 0 {
            0
        } else {
            (n - m) as i32
        }
    }
}

/// The cell one step from `p` in direction `d`.
pub open spec fn step(p: Position, d: Direction) -> Position {
    match d {
        Direction::Up => Position { x: p.x, y: (p.y - 1) as i32 },
        Direction::Down => Position { x: p.x, y: (p.y + 1) as i32 },
        Direction::Left => Position { x: (p.x - 1) as i32, y: p.y },
        Direction::Right => Position { x: (p.x + 1) as i32, y: p.y },
    }
}

/// The body after one move: the new head in front, then either the body
/// without its tail (no growth pending) or the whole body followed by
/// `pending - 1` more copies of the tail cell.
pub open spec fn moved_body(body: Seq<Position>, head: Position, pending: nat) -> Seq<Position> {
    if pending == 0 {
        seq![head] + body.drop_last()
    } else {
        seq![head] + body + Seq::new((pending - 1) as nat, |i: int| body.last())
    }
}

/// Mutable snake state: body segments (front is the head) and the
/// two-deep buffer of requested turns.
#[derive(Debug, Clone)]
pub struct Snake {
    body: VecDeque<Position>,
    direction: Direction,
    buffered_direction: Direction,
    next_buffered_direction: Option<Direction>,
    pending_growth: usize,
}

impl Snake {
    /// Body segments from head to tail.
    pub closed spec fn body(self) -> Seq<Position> {
        self.body@
    }

    /// Direction applied by the last move.
    pub closed spec fn dir(self) -> Direction {
        self.direction
    }

    /// Direction the next move applies.
    pub closed spec fn buffered(self) -> Direction {
        self.buffered_direction
    }

    /// Second queued turn, applied by the move after the next one.
    pub closed spec fn queued(self) -> Option<Direction> {
        self.next_buffered_direction
    }

    /// Segments still to be added by the next move.
    pub closed spec fn pending(self) -> nat {
        self.pending_growth as nat
    }

    /// The body is never empty and no queued turn reverses the one before it.
    pub open spec fn wf(self) -> bool {
        &&& self.body().len() >= 1
        &&& self.buffered() != self.dir().opposite()
        &&& (self.queued() matches Some(q) ==> q != self.buffered().opposite() && self.buffered()
            != self.dir())
    }

    /// `after` is `before` after one move that adds `growth` segments.
    pub open spec fn moved(before: Snake, after: Snake, growth: nat) -> bool {
        &&& after.body() == moved_body(before.body(), before.next_head_spec(), growth)
        &&& after.dir() == before.buffered()
        &&& after.buffered() == (match before.queued() {
            Some(q) => q,
            None => before.buffered(),
        })
        &&& after.queued() is None
        &&& after.pending() == 0
    }

    /// The snake after a turn request `d` (see `buffer_direction`).
    pub closed spec fn buffer_spec(self, d: Direction) -> Snake {
        if self.buffered_direction == self.direction {
            if d == self.direction.opposite() {
                self
            } else {
                Snake { buffered_direction: d, ..self }
            }
        } else {
            if d == self.buffered_direction.opposite() {
                self
            } else {
                Snake { next_buffered_direction: Some(d), ..self }
            }
        }
    }

    /// The snake after the turn requests `ds`, in order.
    pub open spec fn buffer_all(self, ds: Seq<Direction>) -> Snake
        decreases ds.len(),
    {
        if ds.len() == 0 {
            self
        } else {
            self.buffer_spec(ds[0]).buffer_all(ds.drop_first())
        }
    }

    pub open spec fn head_spec(self) -> Position {
        self.body()[0]
    }

    pub open spec fn next_head_spec(self) -> Position {
        step(self.head_spec(), self.buffered())
    }

    pub open spec fn occupies_spec(self, p: Position) -> bool {
        self.body().contains(p)
    }

    pub open spec fn overlaps_spec(self) -> bool {
        exists|i: int| 1 <= i < self.body().len() && self.body()[i] == self.head_spec()
    }

    /// Creates a one-cell snake at `start` moving in `direction`.
    pub fn new(start: Position, direction: Direction) -> (r: Snake)
        ensures
            r.wf(),
            r.body() == seq![start],
            r.dir() == direction,
            r.buffered() == direction,
            r.queued() is None,
            r.pending() == 0,
    {
        let mut body = VecDeque::new();
        body.push_front(start);
        assert(body@ =~= seq![start]);
        Snake {
            body,
            direction,
            buffered_direction: direction,
            next_buffered_direction: None,
            pending_growth: 0,
        }
    }

    /// Creates a snake from explicit segments (front is the head); `None` when
    /// no segment is given.
    pub fn from_segments(segments: Vec<Position>, direction: Direction) -> (r: Option<Snake>)
        ensures
            r is None <==> segments@.len() == 0,
            r matches Some(s) ==> {
                &&& s.wf()
                &&& s.body() == segments@
                &&& s.dir() == direction
                &&& s.buffered() == direction
                &&& s.queued() is None
                &&& s.pending() == 0
            },
    {
        if segments.len() == 0 {
            return None;
        }
        let mut body = VecDeque::new();
        let mut i: usize = 0;
        while i < segments.len()
            invariant
                i <= segments@.len(),
                body@ == segments@.subrange(0, i as int),
            decreases segments@.len() - i,
        {
            body.push_back(segments[i]);
            i = i + 1;
            assert(body@ =~= segments@.subrange(0, i as int));
        }
        assert(body@ =~= segments@);
        Some(
            Snake {
                body,
                direction,
                buffered_direction: direction,
                next_buffered_direction: None,
                pending_growth: 0,
            },
        )
    }

    /// Queues one segment of growth for the next move.
    pub fn grow_next(&mut self)
        requires
            old(self).wf(),
        ensures
            final(self).wf(),
            final(self).body() == old(self).body(),
            final(self).dir() == old(self).dir(),
            final(self).buffered() == old(self).buffered(),
            final(self).queued() == old(self).queued(),
            final(self).pending() == if old(self).pending() < usize::MAX {
                old(self).pending() + 1
            } else {
                old(self).pending()
            },
    {
        self.grow_by(1);
    }

    /// Queues `amount` segments of growth, all added by the next move.
    pub fn grow_by(&mut self, amount: u32)
        requires
            old(self).wf(),
        ensures
            final(self).wf(),
            final(self).body() == old(self).body(),
            final(self).dir() == old(self).dir(),
            final(self).buffered() == old(self).buffered(),
            final(self).queued() == old(self).queued(),
            final(self).pending() as int == if old(self).pending() + amount <= usize::MAX {
                old(self).pending() + amount
            } else {
                usize::MAX as int
            },
    {
        self.pending_growth = self.pending_growth.saturating_add(amount as usize);
    }

    /// Applies one move: commits the buffered direction, promotes the queued
    /// turn, pushes the new head and drops the tail unless growth is pending.
    pub fn move_forward(&mut self, bounds: GridSize)
        requires
            old(self).wf(),
            old(self).head_spec().can_step(),
        ensures
            final(self).wf(),
            Snake::moved(*old(self), *final(self), old(self).pending()),
    {
        let next_head = self.next_head_position();
        self.direction = self.buffered_direction;
        match self.next_buffered_direction {
            Some(next) => {
                self.buffered_direction = next;
            },
            None => {},
        }
        self.next_buffered_direction = None;

        let ghost old_body = self.body@;
        self.body.push_front(next_head);
        if self.pending_growth == 0 {
            let _ = self.body.pop_back();
            assert(self.body@ =~= seq![next_head] + old_body.drop_last());
        } else {
            let tail = self.body[self.body.len() - 1];
            let mut i: usize = 1;
            while i < self.pending_growth
                invariant
                    1 <= i <= self.pending_growth,
                    tail == old_body.last(),
                    self.direction == old(self).buffered_direction,
                    self.buffered_direction == (match old(self).next_buffered_direction {
                        Some(q) => q,
                        None => old(self).buffered_direction,
                    }),
                    self.next_buffered_direction is None,
                    self.pending_growth == old(self).pending_growth,
                    old_body.len() >= 1,
                    self.body@ == seq![next_head] + old_body + Seq::new(
                        (i - 1) as nat,
                        |j: int| old_body.last(),
                    ),
                decreases self.pending_growth - i,
            {
                self.body.push_back(tail);
                i = i + 1;
                assert(self.body@ =~= seq![next_head] + old_body + Seq::new(
                    (i - 1) as nat,
                    |j: int| old_body.last(),
                ));
            }
        }
        self.pending_growth = 0;
    }

    /// Wraps every segment into `bounds` (used when the board is resized).
    pub fn wrap_into_bounds(&mut self, bounds: GridSize)
        requires
            old(self).wf(),
            bounds.width > 0,
            bounds.height > 0,
        ensures
            final(self).wf(),
            final(self).body() == old(self).body().map_values(|p: Position| wrap_spec(p, bounds)),
            forall|i: int|
                0 <= i < final(self).body().len() ==> #[trigger] final(self).body()[i].in_bounds(
                    bounds,
                ),
            final(self).dir() == old(self).dir(),
            final(self).buffered() == old(self).buffered(),
            final(self).queued() == old(self).queued(),
            final(self).pending() == old(self).pending(),
    {
        let ghost target = self.body@.map_values(|p: Position| wrap_spec(p, bounds));
        let mut wrapped: VecDeque<Position> = VecDeque::new();
        let mut i: usize = 0;
        while i < self.body.len()
            invariant
                i <= self.body@.len(),
                bounds.width > 0,
                bounds.height > 0,
                target == self.body@.map_values(|p: Position| wrap_spec(p, bounds)),
                wrapped@ == target.subrange(0, i as int),
                forall|j: int| 0 <= j < i ==> #[trigger] wrapped@[j].in_bounds(bounds),
            decreases self.body@.len() - i,
        {
            let p = self.body[i].wrapped(bounds);
            wrapped.push_back(p);
            i = i + 1;
            assert(wrapped@ =~= target.subrange(0, i as int));
        }
        assert(wrapped@ =~= target);
        self.body = wrapped;
    }

    /// Returns the head position for the next move, without moving.
    pub fn next_head_position(&self) -> (r: Position)
        requires
            self.wf(),
            self.head_spec().can_step(),
        ensures
            r == self.next_head_spec(),
    {
        let head = self.head();
        match self.buffered_direction {
            Direction::Up => Position { x: head.x, y: head.y - 1 },
            Direction::Down => Position { x: head.x, y: head.y + 1 },
            Direction::Left => Position { x: head.x - 1, y: head.y },
            Direction::Right => Position { x: head.x + 1, y: head.y },
        }
    }

    /// Buffers a requested turn. With no turn queued, the request becomes the
    /// next applied direction unless it reverses the current one. With a turn
    /// already queued, it fills the second slot (the last request wins) unless
    /// it reverses the queued turn.
    pub fn buffer_direction(&mut self, direction: Direction)
        requires
            old(self).wf(),
        ensures
            final(self).wf(),
            *final(self) == old(self).buffer_spec(direction),
            final(self).body() == old(self).body(),
            final(self).dir() == old(self).dir(),
            final(self).pending() == old(self).pending(),
            old(self).buffered() == old(self).dir() ==> {
                if direction == old(self).dir().opposite() {
                    final(self).buffered() == old(self).buffered()
                } else {
                    final(self).buffered() == direction
                }
            } && final(self).queued() == old(self).queued(),
            old(self).buffered() != old(self).dir() ==> final(self).buffered() == old(self).buffered()
                && if direction == old(self).buffered().opposite() {
                final(self).queued() == old(self).queued()
            } else {
                final(self).queued() == Some(direction)
            },
    {
        if self.buffered_direction == self.direction {
            if direction == self.direction.opposite() {
                return;
            }
            self.buffered_direction = direction;
        } else {
            if direction == self.buffered_direction.opposite() {
                return;
            }
            self.next_buffered_direction = Some(direction);
        }
    }

    /// Returns the current head position.
    pub fn head(&self) -> (r: Position)
        requires
            self.wf(),
        ensures
            r == self.head_spec(),
    {
        self.body[0]
    }

    /// Returns true if any segment occupies `position`.
    pub fn occupies(&self, position: Position) -> (r: bool)
        ensures
            r == self.occupies_spec(position),
    {
        let mut i: usize = 0;
        while i < self.body.len()
            invariant
                i <= self.body@.len(),
                forall|j: int| 0 <= j < i ==> self.body@[j] != position,
            decreases self.body@.len() - i,
        {
            if self.body[i] == position {
                assert(self.body@[i as int] == position);
                return true;
            }
            i = i + 1;
        }
        false
    }

    /// Returns true if the head overlaps any other segment.
    pub fn head_overlaps_body(&self) -> (r: bool)
        requires
            self.wf(),
        ensures
            r == self.overlaps_spec(),
    {
        let head = self.head();
        let mut i: usize = 1;
        while i < self.body.len()
            invariant
                1 <= i <= self.body@.len(),
                head == self.head_spec(),
                forall|j: int| 1 <= j < i ==> self.body@[j] != head,
            decreases self.body@.len() - i,
        {
            if self.body[i] == head {
                return true;
            }
            i = i + 1;
        }
        false
    }

    /// Returns the number of segments.
    pub fn len(&self) -> (r: usize)
        ensures
            r == self.body().len(),
    {
        self.body.len()
    }

    /// Returns true when there are no segments.
    pub fn is_empty(&self) -> (r: bool)
        ensures
            r == (self.body().len() == 0),
    {
        self.body.len() == 0
    }

    /// Returns the direction applied by the last move.
    pub fn direction(&self) -> (r: Direction)
        ensures
            r == self.dir(),
    {
        self.direction
    }

    /// Returns the second queued turn, if any.
    pub fn next_buffered_direction(&self) -> (r: Option<Direction>)
        ensures
            r == self.queued(),
    {
        self.next_buffered_direction
    }

    /// Returns the body segments from head to tail.
    pub fn segments(&self) -> (r: Vec<Position>)
        ensures
            r@ == self.body(),
    {
        let mut out: Vec<Position> = Vec::new();
        let mut i: usize = 0;
        while i < self.body.len()
            invariant
                i <= self.body@.len(),
                out@ == self.body@.subrange(0, i as int),
            decreases self.body@.len() - i,
        {
            out.push(self.body[i]);
            i = i + 1;
            assert(out@ =~= self.body@.subrange(0, i as int));
        }
        assert(out@ =~= self.body@);
        out
    }
}

/// Whatever turns are requested between two moves, the direction the next
/// move applies never reverses the direction the snake is moving in.
pub proof fn no_illegal_reversal(s: Snake, ds: Seq<Direction>)
    requires
        s.wf(),
    ensures
        s.buffer_all(ds).wf(),
        s.buffer_all(ds).dir() == s.dir(),
        s.buffer_all(ds).buffered() != s.dir().opposite(),
    decreases ds.len(),
{
    if ds.len() > 0 {
        lemma_buffer_keeps_wf(s, ds[0]);
        no_illegal_reversal(s.buffer_spec(ds[0]), ds.drop_first());
    }
}

/// With no turn queued, a request that does not reverse the snake becomes
/// the direction of the next move.
pub proof fn lemma_buffer_first_turn(s: Snake, d: Direction)
    requires
        s.wf(),
        s.buffered() == s.dir(),
        d != s.dir().opposite(),
    ensures
        s.buffer_spec(d).buffered() == d,
        s.buffer_spec(d).body() == s.body(),
        s.buffer_spec(d).pending() == s.pending(),
        s.buffer_spec(d).wf(),
{
}

proof fn lemma_buffer_keeps_wf(s: Snake, d: Direction)
    requires
        s.wf(),
    ensures
        s.buffer_spec(d).wf(),
        s.buffer_spec(d).dir() == s.dir(),
        s.buffer_spec(d).body() == s.body(),
        s.buffer_spec(d).pending() == s.pending(),
{
}

/// A one-step move adds exactly `growth` segments, and none when no growth is pending.
pub proof fn lemma_moved_body_len(body: Seq<Position>, head: Position, growth: nat)
    requires
        body.len() >= 1,
    ensures
        moved_body(body, head, growth).len() == body.len() + growth,
        moved_body(body, head, growth)[0] == head,
        forall|i: int|
            1 <= i < moved_body(body, head, growth).len() ==> body.contains(
                #[trigger] moved_body(body, head, growth)[i],
            ),
{
    let m = moved_body(body, head, growth);
    assert forall|i: int| 1 <= i < m.len() implies body.contains(#[trigger] m[i]) by {
        if i <= body.len() && (growth > 0 || i < body.len()) {
            assert(m[i] == body[i - 1]);
        } else {
            assert(m[i] == body.last());
            assert(body[body.len() - 1] == body.last());
        }
    }
}

} // verus!
