use vstd::prelude::*;
use rand::Rng;
use crate::grid::{Cell, HEIGHT, WIDTH, in_grid};

verus! {

/// Relies on rand::thread_rng and Rng::gen_range: a number drawn from
/// `0..bound`, which is empty (and would panic) only for a zero bound.
#[verifier::external_body]
fn random_below(bound: u32) -> (r: u32)
    requires
        bound > 0,
    ensures
        r < bound,
{
    rand::thread_rng().gen_range(0..bound)
}

/// The food: one cell of the grid that the snake may eat.
pub struct Food {
    pub position: Cell,
}

impl Food {
    /// Food placed at a random cell of the grid, each axis drawn on its own.
    /// The snake's cells are not avoided.
    pub fn new() -> (f: Food)
        ensures
            in_grid(f.position),
    {
        let x = random_below(WIDTH);
        let y = random_below(HEIGHT);
        Food { position: Cell { x, y } }
    }

    /// Moves the food to a freshly drawn random cell of the grid.
    pub fn respawn(&mut self)
        ensures
            in_grid(final(self).position),
    {
        self.position.x = random_below(WIDTH);
        self.position.y = random_below(HEIGHT);
    }
}

} // verus!
