use vstd::prelude::*;
use std::collections::VecDeque;
use crate::grid::{Cell, Direction, in_grid, opposite, step_toward};

verus! {

/// The snake: its occupied cells, head first, and its heading.
pub struct Snake {
    pub body: VecDeque<Cell>,
    pub dir: Direction,
}

/// The body after one move in direction `d`: the new head in front, and the
/// tail kept only when the snake grew.
pub open spec fn advanced(body: Seq<Cell>, d: Direction, grew: bool) -> Seq<Cell>
    recommends
        body.len() > 0,
{
    let moved = seq![step_toward(body[0], d)] + body;
    if grew {
        moved
    } else {
        moved.drop_last()
    }
}

/// The head lies on another segment of the body.
pub open spec fn self_collides(body: Seq<Cell>) -> bool {
    exists|i: int| 1 <= i < body.len() && #[trigger] body[i] == body[0]
}

/// The heading after asking for `requested`: a reversal is refused.
pub open spec fn turned(current: Direction, requested: Direction) -> Direction {
    if requested == opposite(current) {
        current
    } else {
        requested
    }
}

/// A snake of a single segment never collides with itself.
pub proof fn lemma_single_segment_never_collides(c: Cell)
    ensures
        !self_collides(seq![c]),
{
}

impl Snake {
    /// A well-formed snake has at least one segment, and all of them on the grid.
    pub open spec fn wf(&self) -> bool {
        &&& self.body@.len() > 0
        &&& forall|i: int| 0 <= i < self.body@.len() ==> in_grid(#[trigger] self.body@[i])
    }

    /// A snake of one segment at `(x, y)`, heading right.
    pub fn new(x: u32, y: u32) -> (s: Snake)
        requires
            in_grid(Cell { x, y }),
        ensures
            s.wf(),
            s.body@ == seq![Cell { x, y }],
            s.dir == Direction::Right,
    {
        let mut body = VecDeque::new();
        body.push_back(Cell { x, y });
        Snake { body, dir: Direction::Right }
    }

    /// The cell of the head.
    pub fn head(&self) -> (c: Cell)
        requires
            self.wf(),
        ensures
            c == self.body@[0],
            in_grid(c),
    {
        self.body[0]
    }

    /// Moves one cell along the heading, clamped at the edges of the grid.
    /// Unless the snake `grew`, its tail cell is given up.
    pub fn advance(&mut self, grew: bool)
        requires
            old(self).wf(),
        ensures
            final(self).wf(),
            final(self).dir == old(self).dir,
            final(self).body@ == advanced(old(self).body@, old(self).dir, grew),
            final(self).body@.len() == old(self).body@.len() + if grew { 1int } else { 0int },
            final(self).body@[0] == step_toward(old(self).body@[0], old(self).dir),
            in_grid(final(self).body@[0]),
    {
        let new_head = self.head().step_toward(self.dir);
        self.body.push_front(new_head);
        if !grew {
            let _ = self.body.pop_back();
        }
        assert(forall|i: int|
            0 <= i < self.body@.len() ==> #[trigger] self.body@[i] == advanced(
                old(self).body@,
                old(self).dir,
                grew,
            )[i]);
        assert(self.body@ =~= advanced(old(self).body@, old(self).dir, grew));
    }

    /// Asks the snake to head in `requested`; ignored when that is the
    /// exact reverse of the current heading.
    pub fn set_direction(&mut self, requested: Direction)
        ensures
            final(self).body@ == old(self).body@,
            final(self).dir == turned(old(self).dir, requested),
            (final(self).dir == old(self).dir) <==> (requested == opposite(old(self).dir)
                || requested == old(self).dir),
    {
        if requested != self.dir.opposite() {
            self.dir = requested;
        }
    }

    /// The head lies on another segment of the body.
    pub fn has_self_collision(&self) -> (r: bool)
        requires
            self.wf(),
        ensures
            r == self_collides(self.body@),
    {
        let head = self.head();
        let n = self.body.len();
        let mut i: usize = 1;
        while i < n
            invariant
                1 <= i <= n,
                n == self.body@.len(),
                head == self.body@[0],
                forall|j: int| 1 <= j < i ==> self.body@[j] != head,
            decreases n - i,
        {
            if self.body[i] == head {
                return true;
            }
            i = i + 1;
        }
        false
    }
}

} // verus!
