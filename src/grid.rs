use vstd::prelude::*;

verus! {

/// Number of columns of the playing field.
pub const WIDTH: u32 = 20;

/// Number of rows of the playing field.
pub const HEIGHT: u32 = 20;

/// A heading of the snake.
#[derive(Clone, Copy, Debug, PartialEq, Eq, Structural)]
pub enum Direction {
    Up,
    Down,
    Left,
    Right,
}

/// One square of the grid; `x` grows to the right, `y` grows downwards.
#[derive(Clone, Copy, Debug, PartialEq, Eq, Structural)]
pub struct Cell {
    pub x: u32,
    pub y: u32,
}

/// The heading that points the other way.
pub open spec fn opposite(d: Direction) -> Direction {
    match d {
        Direction::Up => Direction::Down,
        Direction::Down => Direction::Up,
        Direction::Left => Direction::Right,
        Direction::Right => Direction::Left,
    }
}

/// The cell lies on the grid.
pub open spec fn in_grid(c: Cell) -> bool {
    c.x < WIDTH && c.y < HEIGHT
}

/// The neighbour of `c` in direction `d`, or `c` itself in the axis where that
/// neighbour would leave the grid.
pub open spec fn step_toward(c: Cell, d: Direction) -> Cell {
    match d {
        Direction::Up => if c.y > 0 { Cell { y: (c.y - 1) as u32, ..c } } else { c },
        Direction::Down => if c.y < HEIGHT - 1 { Cell { y: (c.y + 1) as u32, ..c } } else { c },
        Direction::Left => if c.x > 0 { Cell { x: (c.x - 1) as u32, ..c } } else { c },
        Direction::Right => if c.x < WIDTH - 1 { Cell { x: (c.x + 1) as u32, ..c } } else { c },
    }
}

impl Direction {
    /// The heading that points the other way.
    pub fn opposite(self) -> (r: Direction)
        ensures
            r == opposite(self),
    {
        match self {
            Direction::Up => Direction::Down,
            Direction::Down => Direction::Up,
            Direction::Left => Direction::Right,
            Direction::Right => Direction::Left,
        }
    }
}

impl Cell {
    /// The neighbouring cell in direction `d`, clamped to the grid.
    pub fn step_toward(self, d: Direction) -> (r: Cell)
        ensures
            r == step_toward(self, d),
            in_grid(self) ==> in_grid(r),
    {
        let mut r = self;
        match d {
            Direction::Up => {
                if self.y > 0 {
                    r.y = self.y - 1;
                }
            },
            Direction::Down => {
                if self.y < HEIGHT - 1 {
                    r.y = self.y + 1;
                }
            },
            Direction::Left => {
                if self.x > 0 {
                    r.x = self.x - 1;
                }
            },
            Direction::Right => {
                if self.x < WIDTH - 1 {
                    r.x = self.x + 1;
                }
            },
        }
        r
    }
}

} // verus!
