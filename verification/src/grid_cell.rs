use vstd::prelude::*;

use crate::direction::Direction;
use crate::GRID_HEIGHT;
use crate::GRID_WIDTH;

verus! {

/// A single location within the world grid.
#[derive(Clone, Copy, PartialEq, Eq, Structural, Debug)]
pub struct GridCell {
    pub x: i32,
    pub y: i32,
}

impl GridCell {
    /// Creates a new `GridCell`.
    pub fn new(x: i32, y: i32) -> (r: Self)
        ensures
            r.x == x,
            r.y == y,
    {
        GridCell { x, y }
    }

    /// True iff this cell lies outside the configured grid.
    pub open spec fn spec_out_of_bounds(self) -> bool {
        self.x < 0 || self.x >= GRID_WIDTH || self.y < 0 || self.y >= GRID_HEIGHT
    }

    /// Returns `true` if this `GridCell` lies outside the grid, else `false`.
    pub fn out_of_bounds(&self) -> (r: bool)
        ensures
            r == self.spec_out_of_bounds(),
    {
        self.x < 0 || self.x >= GRID_WIDTH || self.y < 0 || self.y >= GRID_HEIGHT
    }

    /// The adjacent cell one step in direction `d`. No clamping or wrapping:
    /// the result may lie outside the grid and must be bounds-checked by the
    /// caller.
    pub fn add_direction(self, d: Direction) -> (r: Self)
        requires
            i32::MIN < self.x < i32::MAX,
            i32::MIN < self.y < i32::MAX,
        ensures
            r.x == self.x + d.spec_delta_x(),
            r.y == self.y + d.spec_delta_y(),
    {
        let (dx, dy) = d.to_delta();
        GridCell { x: self.x + dx, y: self.y + dy }
    }
}

/// One cell occupied by a piece of the snake; the same representation serves
/// the head and the trailing body.
#[derive(Clone, Copy, PartialEq, Eq, Structural, Debug)]
pub struct Segment {
    pub cell: GridCell,
}

impl Segment {
    /// Creates a new `Segment` occupying `cell`.
    pub fn new(cell: GridCell) -> (r: Self)
        ensures
            r.cell == cell,
    {
        Segment { cell }
    }

    /// The grid location of this `Segment`.
    pub fn position(&self) -> (r: GridCell)
        ensures
            r == self.cell,
    {
        self.cell
    }
}

/// A piece of food for the snake to eat; like a `Segment`, it wraps a single
/// cell and is distinguished only by its role.
#[derive(Clone, Copy, PartialEq, Eq, Structural, Debug)]
pub struct Food {
    pub cell: GridCell,
}

impl Food {
    /// Creates a new `Food` at `cell`.
    pub fn new(cell: GridCell) -> (r: Self)
        ensures
            r.cell == cell,
    {
        Food { cell }
    }

    /// The grid location of this `Food`.
    pub fn position(&self) -> (r: GridCell)
        ensures
            r == self.cell,
    {
        self.cell
    }
}

/// Law: a sequence of pairwise distinct cells that all lie inside the grid is
/// no longer than the grid has cells.
pub proof fn lemma_grid_capacity(cells: Seq<GridCell>)
    requires
        cells.no_duplicates(),
        forall|i: int| 0 <= i < cells.len() ==> !(#[trigger] cells[i]).spec_out_of_bounds(),
    ensures
        cells.len() <= GRID_WIDTH * GRID_HEIGHT,
{
    broadcast use vstd::seq_lib::seq_to_set_is_finite;

    let s = cells.to_set();
    cells.unique_seq_to_set();
    let f = |c: GridCell| c.y * GRID_WIDTH + c.x;
    let ids = s.map(f);
    assert(vstd::relations::injective_on(f, s)) by {
        assert forall|c1: GridCell, c2: GridCell|
            s.contains(c1) && s.contains(c2) && #[trigger] f(c1) == #[trigger] f(c2) implies c1
            == c2 by {
            assert(cells.contains(c1));
            assert(cells.contains(c2));
            assert(!c1.spec_out_of_bounds());
            assert(!c2.spec_out_of_bounds());
        }
    }
    vstd::set_lib::lemma_map_size(s, ids, f);
    let range = vstd::set_lib::set_int_range(0, GRID_WIDTH * GRID_HEIGHT);
    vstd::set_lib::lemma_int_range(0, GRID_WIDTH * GRID_HEIGHT);
    assert forall|i: int| ids.contains(i) implies range.contains(i) by {
        let c = choose|c: GridCell| s.contains(c) && f(c) == i;
        assert(cells.contains(c));
        assert(!c.spec_out_of_bounds());
    }
    vstd::set_lib::lemma_len_subset(ids, range);
}

} // verus!
