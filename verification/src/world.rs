use vstd::prelude::*;

use crate::direction::Direction;
use crate::direction::Key;
use crate::grid_cell::Food;
use crate::grid_cell::GridCell;
use crate::snake::initial_model;
use crate::snake::snake_step;
use crate::snake::Snake;
use crate::snake::SnakeModel;
use crate::GRID_HEIGHT;
use crate::GRID_WIDTH;

verus! {

/// Relies on fastrand::usize over the half-open range below `bound`: the
/// result is always less than `bound`, and the call panics only on an empty
/// range, which the precondition rules out.
#[verifier::external_body]
fn random_index(bound: usize) -> (r: usize)
    requires
        0 < bound,
    ensures
        r < bound,
{
    fastrand::usize(..bound)
}

/// True iff the snake covers every cell of the grid.
pub open spec fn all_cells_occupied(m: SnakeModel) -> bool {
    forall|c: GridCell| !c.spec_out_of_bounds() ==> m.occupies(c)
}

/// Collects every grid cell the snake does not occupy and draws one of them
/// uniformly at random; `None` exactly when the snake covers the whole grid.
fn pick_free_cell(snake: &Snake) -> (r: Option<GridCell>)
    ensures
        match r {
            Some(c) => !c.spec_out_of_bounds() && !snake@.occupies(c),
            None => all_cells_occupied(snake@),
        },
{
    let mut free: Vec<GridCell> = Vec::new();
    let mut x: i32 = 0;
    while x < GRID_WIDTH
        invariant
            0 <= x <= GRID_WIDTH,
            forall|i: int|
                0 <= i < free@.len() ==> !(#[trigger] free@[i]).spec_out_of_bounds()
                    && !snake@.occupies(free@[i]),
            forall|c: GridCell|
                !c.spec_out_of_bounds() && c.x < x && !(#[trigger] snake@.occupies(c))
                    ==> free@.contains(c),
        decreases GRID_WIDTH - x,
    {
        let mut y: i32 = 0;
        while y < GRID_HEIGHT
            invariant
                0 <= x < GRID_WIDTH,
                0 <= y <= GRID_HEIGHT,
                forall|i: int|
                    0 <= i < free@.len() ==> !(#[trigger] free@[i]).spec_out_of_bounds()
                        && !snake@.occupies(free@[i]),
                forall|c: GridCell|
                    !c.spec_out_of_bounds() && (c.x < x || (c.x == x && c.y < y))
                        && !(#[trigger] snake@.occupies(c)) ==> free@.contains(c),
            decreases GRID_HEIGHT - y,
        {
            let cell = GridCell::new(x, y);
            let ghost prev = free@;
            if !snake.occupies_cell(cell) {
                free.push(cell);
            }
            proof {
                assert forall|c: GridCell|
                    !c.spec_out_of_bounds() && (c.x < x || (c.x == x && c.y < y + 1))
                        && !(#[trigger] snake@.occupies(c)) implies free@.contains(c) by {
                    if c == cell {
                        assert(free@.last() == c);
                    } else {
                        assert(prev.contains(c));
                        let w = choose|i: int| 0 <= i < prev.len() && prev[i] == c;
                        assert(free@[w] == c);
                    }
                }
            }
            y += 1;
        }
        x += 1;
    }
    if free.len() == 0 {
        proof {
            assert forall|c: GridCell| !c.spec_out_of_bounds() implies snake@.occupies(c) by {
                if !snake@.occupies(c) {
                    assert(free@.contains(c));
                }
            }
        }
        None
    } else {
        let i = random_index(free.len());
        Some(free[i])
    }
}

/// Stores all 2 of the objects in the world: the snake and its food. A third
/// flag records the terminal state in which the snake has covered the whole
/// grid and no food can be placed — the game is then won and stops, the same
/// way a dead snake stops it.
pub struct World {
    pub food: Food,
    pub snake: Snake,
    pub won: bool,
}

/// How one tick relates the world before to the world after: an inactive
/// world is untouched; otherwise the snake takes one step, and food it ate
/// is respawned on some unoccupied cell — unless none is left, which ends
/// the game as won with the food left in place.
pub open spec fn tick_rel(pre: World, post: World) -> bool {
    if !pre.active_spec() {
        post == pre
    } else {
        let stepped = snake_step(pre.snake@, pre.food.cell);
        &&& post.snake@ == stepped
        &&& if stepped.ate_food {
            if all_cells_occupied(stepped) {
                post.food == pre.food && post.won
            } else {
                !post.food.cell.spec_out_of_bounds() && !stepped.occupies(post.food.cell)
                    && !post.won
            }
        } else {
            post.food == pre.food && post.won == pre.won
        }
    }
}

impl World {
    /// True iff the snake covers cell `c` with its head or its body.
    pub open spec fn occupied(self, c: GridCell) -> bool {
        self.snake@.occupies(c)
    }

    /// Well-formedness: the snake is well formed and the food lies inside
    /// the grid.
    pub open spec fn wf(self) -> bool {
        &&& self.snake@.wf()
        &&& !self.food.cell.spec_out_of_bounds()
    }

    /// True iff the game is running: the snake is alive and the grid is not
    /// yet fully covered.
    pub open spec fn active_spec(self) -> bool {
        self.snake@.alive && !self.won
    }

    /// The score: the number of food squares eaten, i.e. the snake's length
    /// less its starting length of 2.
    pub open spec fn score_spec(self) -> int {
        self.snake@.len() - 2
    }

    /// A freshly constructed world: the canonical starting snake, the game
    /// running, and food placed inside the grid on a cell the snake does not
    /// occupy.
    pub open spec fn is_fresh(self) -> bool {
        &&& self.snake@ == initial_model()
        &&& !self.won
        &&& !self.food.cell.spec_out_of_bounds()
        &&& !self.snake@.occupies(self.food.cell)
    }

    /// Creates a new `World`.
    pub fn new() -> (w: Self)
        ensures
            w.is_fresh(),
            w.wf(),
    {
        Self::default()
    }

    /// Returns `true` if there is a currently alive snake in a still running
    /// world, else returns `false`.
    pub fn active(&self) -> (r: bool)
        ensures
            r == self.active_spec(),
    {
        self.snake.alive() && !self.won
    }

    /// Returns `true` if the snake has covered the whole grid and the game
    /// has thereby been won, else returns `false`.
    pub fn won(&self) -> (r: bool)
        ensures
            r == self.won,
    {
        self.won
    }

    /// The current score of the game, which is equal to the number of food
    /// squares eaten.
    pub fn score(&self) -> (r: usize)
        requires
            self.wf(),
        ensures
            r == self.score_spec(),
    {
        self.snake.len() - 2
    }

    /// The adaptive tick rate, in simulation steps per second: `max(8,
    /// length)`, so the game speeds up as the snake grows.
    pub fn target_ticks_per_second(&self) -> (r: usize)
        requires
            self.wf(),
        ensures
            r == vstd::math::max(8, self.snake@.len() as int),
    {
        let l = self.snake.len();
        if l < 8 {
            8
        } else {
            l
        }
    }

    /// Resets the current game and starts a new one.
    pub fn restart(&mut self)
        ensures
            final(self).is_fresh(),
            final(self).wf(),
    {
        *self = Self::default();
    }

    /// Spawns a new piece of food in the world, on a cell the snake does not
    /// occupy; returns `false`, leaving the food unchanged, exactly when the
    /// snake covers the whole grid.
    pub fn spawn_food(&mut self) -> (placed: bool)
        ensures
            final(self).snake == old(self).snake,
            final(self).won == old(self).won,
            placed == !all_cells_occupied(old(self).snake@),
            placed ==> !final(self).food.cell.spec_out_of_bounds() && !old(
                self,
            ).snake@.occupies(final(self).food.cell),
            !placed ==> final(self).food == old(self).food,
    {
        match pick_free_cell(&self.snake) {
            Some(cell) => {
                self.food = Food::new(cell);
                true
            },
            None => false,
        }
    }

    /// Advances the simulation by one step: while the world is active the
    /// snake updates, food it ate is immediately respawned, and covering the
    /// whole grid ends the game as won; a dead or finished world is left
    /// untouched.
    pub fn tick(&mut self)
        requires
            old(self).wf(),
        ensures
            final(self).wf(),
            tick_rel(*old(self), *final(self)),
            old(self).active_spec() && final(self).snake@.alive && final(self).snake@.ate_food
                ==> final(self).score_spec() == old(self).score_spec() + 1,
    {
        if !self.active() {
            return;
        }
        self.snake.update(&self.food);
        if self.snake.ate_food() {
            let placed = self.spawn_food();
            if !placed {
                self.won = true;
            }
        }
    }

    /// Handles one key press: a recognized direction key feeds the snake's
    /// direction buffer, and the confirm key restarts the game — meaningful
    /// only once the game has ended; every other key is ignored.
    pub fn key_down(&mut self, key: Key)
        requires
            old(self).wf(),
        ensures
            final(self).wf(),
            match Direction::spec_from_key(key) {
                Some(d) => final(self).snake@ == old(self).snake@.with_dirs(
                    old(self).snake@.dirs.request(d),
                ) && final(self).food == old(self).food && final(self).won == old(self).won,
                None => if key == Key::Return && !old(self).active_spec() {
                    final(self).is_fresh()
                } else {
                    *final(self) == *old(self)
                },
            },
    {
        if let Some(direction) = Direction::from_key(key) {
            self.snake.request_direction(direction);
        } else if key == Key::Return && !self.active() {
            self.restart();
        }
    }
}

impl Default for World {
    /// A freshly started game: the canonical starting snake, and food drawn
    /// at random from the cells the snake does not occupy.
    fn default() -> (w: Self)
        ensures
            w.is_fresh(),
            w.wf(),
    {
        let snake = Snake::default();
        let choice = pick_free_cell(&snake);
        proof {
            let c0 = GridCell { x: 0, y: 0 };
            if choice is None {
                assert(!c0.spec_out_of_bounds());
                assert(snake@.occupies(c0));
                assert(initial_model().body[0] != c0);
                assert(false);
            }
        }
        World { food: Food::new(choice.unwrap()), snake, won: false }
    }
}

} // verus!
