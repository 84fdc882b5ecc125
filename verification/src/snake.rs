use vstd::prelude::*;

use std::collections::VecDeque;

use crate::direction::Direction;
use crate::grid_cell::lemma_grid_capacity;
use crate::grid_cell::Food;
use crate::grid_cell::GridCell;
use crate::grid_cell::Segment;
use crate::GRID_HEIGHT;
use crate::GRID_WIDTH;

verus! {

/// The direction state of a snake: the direction of travel, the request
/// pending for the next move, and an optional second request queued behind it.
pub struct DirectionBuffer {
    pub current: Direction,
    pub next: Direction,
    pub queued: Option<Direction>,
}

impl DirectionBuffer {
    /// The effect of one recognized direction key press: a request is queued
    /// when a change is already pending and is no reversal of it, applied
    /// when it is no immediate reversal of the travel direction, and dropped
    /// otherwise.
    pub open spec fn request(self, d: Direction) -> DirectionBuffer {
        if self.next != self.current && self.next != d.spec_inverse() {
            DirectionBuffer { current: self.current, next: self.next, queued: Some(d) }
        } else if self.current != d.spec_inverse() {
            DirectionBuffer { current: self.current, next: d, queued: self.queued }
        } else {
            self
        }
    }

    /// The first step of a tick: when the previous request has already taken
    /// effect, a queued request is promoted to be the pending one.
    pub open spec fn promote(self) -> DirectionBuffer {
        if self.current == self.next {
            match self.queued {
                Some(q) => DirectionBuffer { current: self.current, next: q, queued: None },
                None => self,
            }
        } else {
            self
        }
    }

    /// The direction state after a tick the snake survives: the pending
    /// request (after promotion) becomes the direction of travel.
    pub open spec fn after_tick(self) -> DirectionBuffer {
        let p = self.promote();
        DirectionBuffer { current: p.next, next: p.next, queued: p.queued }
    }
}

/// The mathematical state of a snake: its head cell, the cells of its
/// trailing body ordered from nearest the head to the tail tip, its
/// direction state, and its status flags.
#[verifier::ext_equal]
pub struct SnakeModel {
    pub alive: bool,
    pub ate_food: bool,
    pub body: Seq<GridCell>,
    pub head: GridCell,
    pub dirs: DirectionBuffer,
}

impl SnakeModel {
    /// The number of cells the snake covers: its head plus its body.
    pub open spec fn len(self) -> nat {
        self.body.len() + 1
    }

    /// True iff the snake covers cell `c` with its head or its body.
    pub open spec fn occupies(self, c: GridCell) -> bool {
        self.head == c || self.body.contains(c)
    }

    /// The same snake with its direction state replaced by `b`.
    pub open spec fn with_dirs(self, b: DirectionBuffer) -> SnakeModel {
        SnakeModel {
            alive: self.alive,
            ate_food: self.ate_food,
            body: self.body,
            head: self.head,
            dirs: b,
        }
    }

    /// Well-formedness: the body is nonempty, covers pairwise distinct cells
    /// inside the grid, and, while the snake is alive, the head is inside the
    /// grid and disjoint from the body.
    pub open spec fn wf(self) -> bool {
        &&& self.body.len() >= 1
        &&& self.body.no_duplicates()
        &&& forall|i: int|
            0 <= i < self.body.len() ==> !(#[trigger] self.body[i]).spec_out_of_bounds()
        &&& self.alive ==> !self.head.spec_out_of_bounds() && !self.body.contains(self.head)
    }
}

/// Horizontal coordinate the head moves to this tick, after promotion of a
/// queued direction request.
pub open spec fn step_x(m: SnakeModel) -> int {
    m.head.x + m.dirs.promote().next.spec_delta_x()
}

/// Vertical coordinate the head moves to this tick.
pub open spec fn step_y(m: SnakeModel) -> int {
    m.head.y + m.dirs.promote().next.spec_delta_y()
}

/// True iff the cell the head moves to this tick lies inside the grid.
pub open spec fn step_in_bounds(m: SnakeModel) -> bool {
    0 <= step_x(m) < GRID_WIDTH && 0 <= step_y(m) < GRID_HEIGHT
}

/// The cell the head moves to this tick.
pub open spec fn step_candidate(m: SnakeModel) -> GridCell {
    GridCell { x: step_x(m) as i32, y: step_y(m) as i32 }
}

/// One tick of the snake state machine, for a living snake facing food at
/// `food`: promote a queued direction request, propose the adjacent cell in
/// the pending direction, die on leaving the grid, advance by demoting the
/// old head into the body, die on self-collision against the grown body, and
/// otherwise either grow (head on food) or drop the tail tip.
pub open spec fn snake_step(m: SnakeModel, food: GridCell) -> SnakeModel {
    let dirs = m.dirs.promote();
    if !step_in_bounds(m) {
        SnakeModel { alive: false, ate_food: m.ate_food, body: m.body, head: m.head, dirs }
    } else {
        let cand = step_candidate(m);
        let grown = seq![m.head] + m.body;
        if grown.contains(cand) {
            SnakeModel { alive: false, ate_food: m.ate_food, body: grown, head: cand, dirs }
        } else if cand == food {
            SnakeModel {
                alive: true,
                ate_food: true,
                body: grown,
                head: cand,
                dirs: m.dirs.after_tick(),
            }
        } else {
            SnakeModel {
                alive: true,
                ate_food: false,
                body: grown.drop_last(),
                head: cand,
                dirs: m.dirs.after_tick(),
            }
        }
    }
}

/// The eponymous snake.
pub struct Snake {
    pub alive: bool,
    pub ate_food: bool,
    pub body: VecDeque<Segment>,
    /// The current direction the snake is heading in.
    pub direction: Direction,
    /// The requested direction for the snake to head to.
    pub direction_next: Direction,
    /// The direction requested to move to after a request has already been
    /// made; honours a quick double tap despite the low tick rate.
    pub direction_queued: Option<Direction>,
    pub head: Segment,
}

impl View for Snake {
    type V = SnakeModel;

    open spec fn view(&self) -> SnakeModel {
        SnakeModel {
            alive: self.alive,
            ate_food: self.ate_food,
            body: self.body@.map_values(|s: Segment| s.cell),
            head: self.head.cell,
            dirs: DirectionBuffer {
                current: self.direction,
                next: self.direction_next,
                queued: self.direction_queued,
            },
        }
    }
}

/// The canonical freshly constructed snake: a one-segment body a quarter of
/// the way across and halfway down the grid, heading rightward, alive.
pub open spec fn initial_model() -> SnakeModel {
    SnakeModel {
        alive: true,
        ate_food: false,
        body: seq![GridCell { x: (GRID_WIDTH / 4) as i32, y: (GRID_HEIGHT / 2) as i32 }],
        head: GridCell { x: (GRID_WIDTH / 4 + 1) as i32, y: (GRID_HEIGHT / 2) as i32 },
        dirs: DirectionBuffer {
            current: Direction::Right,
            next: Direction::Right,
            queued: None,
        },
    }
}

impl Snake {
    /// Returns `true` if this snake is alive and well.
    /// Returns `false` if it ate itself or a wall.
    pub fn alive(&self) -> (r: bool)
        ensures
            r == self@.alive,
    {
        self.alive
    }

    /// Returns `true` if the snake just landed on a food square.
    /// Resets to `false` every update.
    pub fn ate_food(&self) -> (r: bool)
        ensures
            r == self@.ate_food,
    {
        self.ate_food
    }

    /// The snake's trailing body, ordered from nearest the head to the tail
    /// tip.
    pub fn body(&self) -> (r: &VecDeque<Segment>)
        ensures
            r@ == self.body@,
    {
        &self.body
    }

    /// The segment at the front of this `Snake`.
    pub fn head(&self) -> (r: &Segment)
        ensures
            r.cell == self@.head,
    {
        &self.head
    }

    /// Returns `true` if the snake's head is on top of delicious food, else
    /// `false`.
    pub fn eats_food(&self, food: &Food) -> (r: bool)
        ensures
            r == (self@.head == food.cell),
    {
        self.head.position() == food.position()
    }

    /// Returns `true` if the snake's trailing body covers cell `c`, else
    /// `false`.
    pub fn body_contains(&self, c: GridCell) -> (r: bool)
        ensures
            r == self@.body.contains(c),
    {
        let mut i: usize = 0;
        while i < self.body.len()
            invariant
                0 <= i <= self.body@.len(),
                forall|j: int| 0 <= j < i ==> #[trigger] self.body@[j].cell != c,
            decreases self.body@.len() - i,
        {
            if self.body[i].position() == c {
                assert(self@.body[i as int] == c);
                return true;
            }
            i += 1;
        }
        assert forall|j: int| 0 <= j < self@.body.len() implies #[trigger] self@.body[j] != c by {
            assert(self.body@[j].cell != c);
        }
        false
    }

    /// Returns `true` if the snake covers cell `c` with its head or its body,
    /// else `false`.
    pub fn occupies_cell(&self, c: GridCell) -> (r: bool)
        ensures
            r == self@.occupies(c),
    {
        self.head.position() == c || self.body_contains(c)
    }

    /// Returns `true` if the snake's head is on top of its own delicious
    /// tail, else `false`.
    pub fn eats_self(&self) -> (r: bool)
        ensures
            r == self@.body.contains(self@.head),
    {
        self.body_contains(self.head.position())
    }

    /// The number of grid cells this snake covers.
    pub fn len(&self) -> (r: usize)
        requires
            self@.wf(),
        ensures
            r == self@.len(),
    {
        proof {
            lemma_grid_capacity(self@.body);
        }
        self.body.len() + 1
    }

    /// Handles one recognized direction key press: the request is queued,
    /// applied, or — when it is an immediate reversal of straight travel —
    /// silently dropped.
    pub fn request_direction(&mut self, d: Direction)
        ensures
            final(self)@ == old(self)@.with_dirs(old(self)@.dirs.request(d)),
    {
        if self.direction_next != self.direction && self.direction_next != d.inverse() {
            self.direction_queued = Some(d);
        } else if self.direction != d.inverse() {
            self.direction_next = d;
        }
    }

    /// Updates this snake for a new tick, consuming `food` when the head
    /// lands on it. One call is one authoritative simulation step.
    pub fn update(&mut self, food: &Food)
        requires
            old(self)@.wf(),
            old(self)@.alive,
        ensures
            final(self)@ == snake_step(old(self)@, food.cell),
            final(self)@.wf(),
    {
        let ghost m = old(self)@;
        if self.direction == self.direction_next {
            if let Some(next_dir) = self.direction_queued {
                self.direction_next = next_dir;
                self.direction_queued = None;
            }
        }
        proof {
            assert(self@ =~= m.with_dirs(m.dirs.promote()));
        }

        let new_head_position = self.head.position().add_direction(self.direction_next);

        if new_head_position.out_of_bounds() {
            self.alive = false;
            proof {
                assert(!step_in_bounds(m));
                assert(self@ =~= snake_step(m, food.cell));
            }
            return;
        }

        proof {
            assert(step_in_bounds(m));
            assert(new_head_position == step_candidate(m));
        }

        let new_head = Segment::new(new_head_position);
        let old_head = self.head;
        self.head = new_head;
        self.body.push_front(old_head);

        proof {
            assert(self@.body =~= seq![m.head] + m.body);
            lemma_grown_body_wf(m);
        }

        if self.eats_self() {
            self.alive = false;
            proof {
                assert(self@ =~= snake_step(m, food.cell));
            }
            return;
        }

        self.ate_food = false;

        if self.eats_food(food) {
            self.ate_food = true;
        } else {
            self.body.pop_back();
            proof {
                assert(self@.body =~= (seq![m.head] + m.body).drop_last());
                lemma_drop_last_wf(seq![m.head] + m.body, step_candidate(m));
            }
        }

        self.direction = self.direction_next;
        proof {
            assert(self@ =~= snake_step(m, food.cell));
        }
    }
}

impl Default for Snake {
    /// The canonical starting snake: alive, one body segment, heading
    /// rightward from a deterministic starting position.
    fn default() -> (s: Self)
        ensures
            s@ == initial_model(),
            s@.wf(),
    {
        let body_position = GridCell::new(GRID_WIDTH / 4, GRID_HEIGHT / 2);
        let mut body = VecDeque::new();
        body.push_front(Segment::new(body_position));
        let direction = Direction::Right;
        let s = Snake {
            alive: true,
            ate_food: false,
            body,
            direction,
            direction_next: direction,
            direction_queued: None,
            head: Segment::new(body_position.add_direction(direction)),
        };
        proof {
            assert(s@ =~= initial_model());
        }
        s
    }
}

/// The body grown by the demoted former head of a well-formed living snake
/// still covers pairwise distinct cells inside the grid.
proof fn lemma_grown_body_wf(m: SnakeModel)
    requires
        m.wf(),
        m.alive,
    ensures
        (seq![m.head] + m.body).no_duplicates(),
        forall|i: int|
            0 <= i < (seq![m.head] + m.body).len() ==> !(#[trigger] (seq![m.head] + m.body)[i]).spec_out_of_bounds(),
{
    let g = seq![m.head] + m.body;
    assert forall|i: int, j: int| 0 <= i < j < g.len() implies g[i] != g[j] by {
        if i == 0 {
            assert(m.body.contains(m.body[j - 1]));
        }
    }
    assert forall|i: int| 0 <= i < g.len() implies !(#[trigger] g[i]).spec_out_of_bounds() by {
        if i > 0 {
            assert(!m.body[i - 1].spec_out_of_bounds());
        }
    }
}

/// Dropping the tail tip of a well-formed grown body keeps its cells
/// pairwise distinct, inside the grid, and disjoint from the new head.
proof fn lemma_drop_last_wf(g: Seq<GridCell>, cand: GridCell)
    requires
        g.len() >= 1,
        g.no_duplicates(),
        forall|i: int| 0 <= i < g.len() ==> !(#[trigger] g[i]).spec_out_of_bounds(),
        !g.contains(cand),
    ensures
        g.drop_last().no_duplicates(),
        forall|i: int|
            0 <= i < g.drop_last().len() ==> !(#[trigger] g.drop_last()[i]).spec_out_of_bounds(),
        !g.drop_last().contains(cand),
{
    let d = g.drop_last();
    assert forall|i: int, j: int| 0 <= i < j < d.len() implies d[i] != d[j] by {
        assert(g[i] == d[i]);
        assert(g[j] == d[j]);
    }
    assert forall|i: int| 0 <= i < d.len() implies !(#[trigger] d[i]).spec_out_of_bounds() by {
        assert(d[i] == g[i]);
    }
    if d.contains(cand) {
        let w = choose|i: int| 0 <= i < d.len() && d[i] == cand;
        assert(g[w] == cand);
    }
}

/// Law: with no change pending and no queued request, a tick whose
/// destination is inside the grid, free of the snake itself, and free of
/// food moves the head by exactly one step in the travel direction and keeps
/// the direction and the length unchanged.
pub proof fn lemma_movement_determinism(m: SnakeModel, food: GridCell)
    requires
        m.wf(),
        m.alive,
        m.dirs.next == m.dirs.current,
        m.dirs.queued is None,
        step_in_bounds(m),
        !(seq![m.head] + m.body).contains(step_candidate(m)),
        step_candidate(m) != food,
    ensures
        snake_step(m, food).alive,
        snake_step(m, food).head.x == m.head.x + m.dirs.current.spec_delta_x(),
        snake_step(m, food).head.y == m.head.y + m.dirs.current.spec_delta_y(),
        snake_step(m, food).dirs.current == m.dirs.current,
        snake_step(m, food).body.len() == m.body.len(),
        snake_step(m, food).len() == m.len(),
{
}

/// Law: when the destination cell holds the food, the tick sets `ate_food`
/// and grows the snake by exactly one segment; otherwise `ate_food` is
/// cleared, the length is unchanged, and the tail tip is dropped.
pub proof fn lemma_growth_on_feed(m: SnakeModel, food: GridCell)
    requires
        m.wf(),
        m.alive,
        step_in_bounds(m),
        !(seq![m.head] + m.body).contains(step_candidate(m)),
    ensures
        snake_step(m, food).ate_food == (step_candidate(m) == food),
        step_candidate(m) == food ==> snake_step(m, food).len() == m.len() + 1,
        step_candidate(m) != food ==> snake_step(m, food).len() == m.len()
            && snake_step(m, food).body == (seq![m.head] + m.body).drop_last(),
{
}

/// Law: a snake whose destination lies outside the grid dies, and its head
/// and body are left exactly as they were.
pub proof fn lemma_bounds_death(m: SnakeModel, food: GridCell)
    requires
        m.wf(),
        m.alive,
        !step_in_bounds(m),
    ensures
        !snake_step(m, food).alive,
        snake_step(m, food).head == m.head,
        snake_step(m, food).body == m.body,
{
}

/// Law: a snake whose destination cell coincides with its own grown body —
/// the former head included — dies on that tick.
pub proof fn lemma_self_collision_death(m: SnakeModel, food: GridCell)
    requires
        m.wf(),
        m.alive,
        step_in_bounds(m),
        (seq![m.head] + m.body).contains(step_candidate(m)),
    ensures
        !snake_step(m, food).alive,
{
}

/// Law: requesting the exact inverse of the travel direction while no change
/// is pending leaves the direction state unchanged.
pub proof fn lemma_no_reversal(b: DirectionBuffer, d: Direction)
    requires
        b.next == b.current,
        d == b.current.spec_inverse(),
    ensures
        b.request(d) == b,
{
    assert(b.current == d.spec_inverse());
}

/// Law: requesting direction `a` and then direction `b` (no reversal of `a`)
/// within the same un-applied step makes `a` the travel direction after the
/// next tick and `b` the travel direction after the tick after.
pub proof fn lemma_queued_double_tap(ds: DirectionBuffer, a: Direction, b: Direction)
    requires
        ds.next == ds.current,
        ds.queued is None,
        a != ds.current,
        a != ds.current.spec_inverse(),
        b != a.spec_inverse(),
    ensures
        ds.request(a).request(b).after_tick().current == a,
        ds.request(a).request(b).after_tick().after_tick().current == b,
{
}

} // verus!
