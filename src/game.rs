use vstd::prelude::*;
use crate::food::Food;
use crate::grid::{Cell, Direction, HEIGHT, WIDTH, in_grid};
use crate::snake::{Snake, advanced, self_collides, turned};

verus! {

/// Time between two moves when a session begins, in microseconds.
pub const INITIAL_TICK_MICROS: u64 = 200_000;

/// How much the time between moves shrinks at each speed-up, in microseconds.
pub const TICK_STEP_MICROS: u64 = 20_000;

/// The shortest time between two moves, in microseconds.
pub const MIN_TICK_MICROS: u64 = 50_000;

/// The game speeds up each time this many more pieces of food have been eaten.
pub const MEALS_PER_SPEEDUP: usize = 4;

/// What the player can ask for.
#[derive(Clone, Copy, Debug, PartialEq, Eq, Structural)]
pub enum Input {
    /// Steer the snake.
    Turn(Direction),
    /// Start the session, or start over once it is lost.
    Confirm,
}

/// The phase of a session.
#[derive(Clone, Copy, Debug, PartialEq, Eq, Structural)]
pub enum Phase {
    NotStarted,
    Running,
    Over,
}

/// A whole game session: the snake, the food, the flags and the timers.
pub struct Game {
    pub snake: Snake,
    pub food: Food,
    /// Set by the first confirmation.
    pub started: bool,
    /// Set once the snake has collided.
    pub over: bool,
    /// Time gathered since the last move, in microseconds.
    pub elapsed_since_tick: u64,
    /// Current time between two moves, in microseconds.
    pub tick_interval: u64,
    /// How many pieces of food were eaten in this session.
    pub food_eaten: usize,
}

/// A session seen as plain values.
pub struct GameView {
    pub body: Seq<Cell>,
    pub dir: Direction,
    pub food: Cell,
    pub started: bool,
    pub over: bool,
    pub elapsed: u64,
    pub interval: u64,
    pub eaten: nat,
}

impl View for Game {
    type V = GameView;

    open spec fn view(&self) -> GameView {
        GameView {
            body: self.snake.body@,
            dir: self.snake.dir,
            food: self.food.position,
            started: self.started,
            over: self.over,
            elapsed: self.elapsed_since_tick,
            interval: self.tick_interval,
            eaten: self.food_eaten as nat,
        }
    }
}

/// The cell where every snake of a session starts.
pub open spec fn center() -> Cell {
    Cell { x: WIDTH / 2, y: HEIGHT / 2 }
}

/// One speed-up: the interval shrinks by the step, but not below the floor.
pub open spec fn reduced(interval: u64) -> u64 {
    if interval >= MIN_TICK_MICROS + TICK_STEP_MICROS {
        (interval - TICK_STEP_MICROS) as u64
    } else {
        MIN_TICK_MICROS
    }
}

/// The interval between moves once `meals` pieces of food have been eaten.
pub open spec fn interval_after(meals: nat) -> u64 {
    let cut = TICK_STEP_MICROS * (meals / MEALS_PER_SPEEDUP as nat);
    if INITIAL_TICK_MICROS >= MIN_TICK_MICROS + cut {
        (INITIAL_TICK_MICROS - cut) as u64
    } else {
        MIN_TICK_MICROS
    }
}

/// `a + b`, or the largest `u64` where the sum would not fit.
pub open spec fn saturated_sum(a: u64, b: u64) -> u64 {
    if a + b > u64::MAX {
        u64::MAX
    } else {
        (a + b) as u64
    }
}

/// The phase that the flags of a session stand for.
pub open spec fn phase_of(g: GameView) -> Phase {
    if !g.started {
        Phase::NotStarted
    } else if g.over {
        Phase::Over
    } else {
        Phase::Running
    }
}

/// A session that has not begun, with its food at `food`.
pub open spec fn fresh_session(food: Cell) -> GameView {
    GameView {
        body: seq![center()],
        dir: Direction::Right,
        food,
        started: false,
        over: false,
        elapsed: 0,
        interval: INITIAL_TICK_MICROS,
        eaten: 0,
    }
}

/// `g` after a start over with the food at `food`: a new snake at the centre,
/// no food eaten, the first speed; the time gathered is kept.
pub open spec fn restarted(g: GameView, food: Cell) -> GameView {
    GameView {
        body: seq![center()],
        dir: Direction::Right,
        food,
        started: true,
        over: false,
        interval: INITIAL_TICK_MICROS,
        eaten: 0,
        ..g
    }
}

/// The head lies on the snake's own body or off the grid.
pub open spec fn crashed(body: Seq<Cell>) -> bool {
    self_collides(body) || body[0].x >= WIDTH || body[0].y >= HEIGHT
}

/// `g` after one move. The snake grows when its head was on the food, and
/// then the food goes to `fresh`.
pub open spec fn stepped(g: GameView, fresh: Cell) -> GameView {
    let ate = g.body[0] == g.food;
    let body = advanced(g.body, g.dir, ate);
    let eaten = if ate { g.eaten + 1 } else { g.eaten };
    GameView {
        body,
        food: if ate { fresh } else { g.food },
        eaten,
        interval: if ate && eaten % (MEALS_PER_SPEEDUP as nat) == 0 {
            reduced(g.interval)
        } else {
            g.interval
        },
        over: g.over || crashed(body),
        elapsed: 0,
        ..g
    }
}

/// `g` after a frame that took `dt` microseconds. A running session moves
/// once when the time gathered has reached the interval; the time of the
/// frame is then gathered.
pub open spec fn updated(g: GameView, dt: u64, fresh: Cell) -> GameView {
    if g.started && !g.over {
        let moved = if g.elapsed >= g.interval { stepped(g, fresh) } else { g };
        GameView { elapsed: saturated_sum(moved.elapsed, dt), ..moved }
    } else {
        g
    }
}

/// `g` after the player's `input`; a start over puts the food at `fresh`.
pub open spec fn after_input(g: GameView, input: Input, fresh: Cell) -> GameView {
    match phase_of(g) {
        Phase::NotStarted => if input == Input::Confirm {
            GameView { started: true, ..g }
        } else {
            g
        },
        Phase::Running => match input {
            Input::Turn(d) => GameView { dir: turned(g.dir, d), ..g },
            Input::Confirm => g,
        },
        Phase::Over => if input == Input::Confirm {
            restarted(g, fresh)
        } else {
            g
        },
    }
}

/// The speed schedule: the interval stays between the floor and the first
/// speed, and one more meal shrinks it by one speed-up exactly when the
/// count of meals reaches a multiple of four; otherwise it is unchanged.
pub proof fn lemma_interval_schedule(meals: nat)
    ensures
        MIN_TICK_MICROS <= interval_after(meals) <= INITIAL_TICK_MICROS,
        interval_after(meals + 1) == if (meals + 1) % (MEALS_PER_SPEEDUP as nat) == 0 {
            reduced(interval_after(meals))
        } else {
            interval_after(meals)
        },
{
    let k = meals / 4;
    assert(meals == 4 * k + meals % 4);
    if (meals + 1) % 4 == 0 {
        assert((meals + 1) / 4 == k + 1);
    } else {
        assert((meals + 1) / 4 == k);
    }
}

/// A meal always moves the food to the freshly drawn cell, whatever that
/// cell is: it need not be near the old one, and may even be the same.
pub proof fn lemma_meal_moves_food(g: GameView, fresh: Cell)
    requires
        g.body.len() > 0,
        g.body[0] == g.food,
    ensures
        stepped(g, fresh).food == fresh,
{
}

/// Meals drive the speed: a move counts one meal exactly when the head was
/// on the food; the interval then follows the schedule of the meals and
/// never goes below the floor. It changes only on a meal that brings the
/// count to a multiple of four, and then shrinks by the fixed step, or to the
/// floor where a full step would pass it; once at the floor it stays there.
pub proof fn lemma_meals_drive_speed(g: GameView, fresh: Cell)
    requires
        g.body.len() > 0,
        g.interval == interval_after(g.eaten),
    ensures
        stepped(g, fresh).eaten == g.eaten + if g.body[0] == g.food { 1nat } else { 0nat },
        stepped(g, fresh).interval == interval_after(stepped(g, fresh).eaten),
        MIN_TICK_MICROS <= stepped(g, fresh).interval <= g.interval,
        if g.body[0] == g.food && stepped(g, fresh).eaten % (MEALS_PER_SPEEDUP as nat) == 0 {
            stepped(g, fresh).interval == reduced(g.interval)
        } else {
            stepped(g, fresh).interval == g.interval
        },
        (stepped(g, fresh).interval < g.interval) <==> (g.body[0] == g.food
            && stepped(g, fresh).eaten % (MEALS_PER_SPEEDUP as nat) == 0
            && g.interval > MIN_TICK_MICROS),
{
    lemma_interval_schedule(g.eaten);
    let s = stepped(g, fresh);
    if g.body[0] == g.food {
        assert(s.eaten == g.eaten + 1);
        if s.eaten % (MEALS_PER_SPEEDUP as nat) == 0 {
            assert(s.interval == reduced(g.interval));
        } else {
            assert(s.interval == g.interval);
        }
    } else {
        assert(s.eaten == g.eaten);
        assert(s.interval == g.interval);
    }
}

impl Game {
    /// The invariant of a session: a well-formed snake, food on the grid,
    /// one segment more than meals, and the interval that the meals call for.
    pub open spec fn wf(&self) -> bool {
        &&& self.snake.wf()
        &&& in_grid(self.food.position)
        &&& self.over ==> self.started
        &&& self.snake.body@.len() == self.food_eaten + 1
        &&& self.tick_interval == interval_after(self.food_eaten as nat)
    }

    /// A session waiting for its first confirmation, with the food at a
    /// random cell.
    pub fn new() -> (g: Game)
        ensures
            g.wf(),
            g@ == fresh_session(g.food.position),
    {
        Game {
            snake: Snake::new(WIDTH / 2, HEIGHT / 2),
            food: Food::new(),
            started: false,
            over: false,
            elapsed_since_tick: 0,
            tick_interval: INITIAL_TICK_MICROS,
            food_eaten: 0,
        }
    }


    /// One move of the snake. When its head was on the food, the snake grows,
    /// the food is moved to a freshly drawn cell, the meal is counted and
    /// every fourth meal speeds the game up. A collision ends the session.
    /// Moves happen only while the session runs.
    pub fn tick(&mut self)
        requires
            old(self).wf(),
            phase_of(old(self)@) == Phase::Running,
        ensures
            final(self).wf(),
            final(self)@ == stepped(old(self)@, final(self).food.position),
    {
        let head = self.snake.head();
        let ate = head == self.food.position;
        self.snake.advance(ate);
        if ate {
            self.food.respawn();
            let grown = self.snake.body.len();
            assert(grown == old(self).food_eaten + 2);
            self.food_eaten = self.food_eaten + 1;
            proof {
                lemma_interval_schedule(old(self).food_eaten as nat);
            }
            if self.food_eaten % MEALS_PER_SPEEDUP == 0 {
                self.tick_interval = if self.tick_interval >= MIN_TICK_MICROS + TICK_STEP_MICROS {
                    self.tick_interval - TICK_STEP_MICROS
                } else {
                    MIN_TICK_MICROS
                };
            }
        }
        let new_head = self.snake.head();
        if self.snake.has_self_collision() || new_head.x >= WIDTH || new_head.y >= HEIGHT {
            self.over = true;
        }
        self.elapsed_since_tick = 0;
        assert(self@ =~= stepped(old(self)@, self.food.position));
    }


    /// Accounts for a frame that took `dt` microseconds. While the session
    /// runs, the snake moves once if the time gathered has reached the
    /// interval, which sets that time back to zero; the frame's time is then
    /// gathered. Before the start and after the end nothing changes.
    pub fn update(&mut self, dt: u64)
        requires
            old(self).wf(),
        ensures
            final(self).wf(),
            final(self)@ == updated(old(self)@, dt, final(self).food.position),
    {
        if self.started && !self.over {
            if self.elapsed_since_tick >= self.tick_interval {
                self.tick();
            }
            self.elapsed_since_tick = self.elapsed_since_tick.saturating_add(dt);
        }
        assert(self@ =~= updated(old(self)@, dt, self.food.position));
    }

    /// Handles the player's input. Before the start only a confirmation
    /// counts, and starts the session; while it runs a turn steers the snake
    /// unless it would reverse it; once it is over only a confirmation
    /// counts, and starts over with a new snake and freshly placed food.
    pub fn handle_input(&mut self, input: Input)
        requires
            old(self).wf(),
        ensures
            final(self).wf(),
            final(self)@ == after_input(old(self)@, input, final(self).food.position),
    {
        match self.phase() {
            Phase::NotStarted => {
                if input == Input::Confirm {
                    self.started = true;
                }
            },
            Phase::Running => {
                if let Input::Turn(d) = input {
                    self.snake.set_direction(d);
                }
            },
            Phase::Over => {
                if input == Input::Confirm {
                    self.snake = Snake::new(WIDTH / 2, HEIGHT / 2);
                    self.food = Food::new();
                    self.over = false;
                    self.food_eaten = 0;
                    self.tick_interval = INITIAL_TICK_MICROS;
                    self.started = true;
                }
            },
        }
        assert(self@ =~= after_input(old(self)@, input, self.food.position));
    }

    /// Where the session stands.
    pub fn phase(&self) -> (p: Phase)
        ensures
            p == phase_of(self@),
    {
        if !self.started {
            Phase::NotStarted
        } else if self.over {
            Phase::Over
        } else {
            Phase::Running
        }
    }
}

} // verus!
