use vstd::prelude::*;

verus! {

/// A direction in which a snake can travel on the grid.
#[derive(Clone, Copy, Debug, PartialEq, Eq, Structural)]
pub enum Direction {
    Down,
    Left,
    Right,
    Up,
}

/// A key press the simulation reacts to; every key it does not care about is
/// delivered as `Other`.
#[derive(Clone, Copy, Debug, PartialEq, Eq, Structural)]
pub enum Key {
    Up,
    Down,
    Left,
    Right,
    W,
    A,
    S,
    D,
    Return,
    Other,
}

impl Direction {
    /// The direction opposite this one.
    pub open spec fn spec_inverse(self) -> Direction {
        match self {
            Direction::Down => Direction::Up,
            Direction::Left => Direction::Right,
            Direction::Right => Direction::Left,
            Direction::Up => Direction::Down,
        }
    }

    /// The direction opposite the current direction.
    pub fn inverse(self) -> (r: Self)
        ensures
            r == self.spec_inverse(),
    {
        match self {
            Direction::Down => Direction::Up,
            Direction::Left => Direction::Right,
            Direction::Right => Direction::Left,
            Direction::Up => Direction::Down,
        }
    }

    /// Horizontal displacement of one step in this direction; x grows rightward.
    pub open spec fn spec_delta_x(self) -> int {
        match self {
            Direction::Left => -1,
            Direction::Right => 1,
            _ => 0,
        }
    }

    /// Vertical displacement of one step in this direction; y grows downward.
    pub open spec fn spec_delta_y(self) -> int {
        match self {
            Direction::Up => -1,
            Direction::Down => 1,
            _ => 0,
        }
    }

    /// Converts this `Direction` to its unit displacement as an `(x, y)` pair.
    pub fn to_delta(self) -> (r: (i32, i32))
        ensures
            r.0 == self.spec_delta_x(),
            r.1 == self.spec_delta_y(),
    {
        match self {
            Direction::Down => (0, 1),
            Direction::Left => (-1, 0),
            Direction::Right => (1, 0),
            Direction::Up => (0, -1),
        }
    }

    /// Which direction, if any, a key press requests: the arrow keys and their
    /// WASD equivalents map to directions, every other key to `None`.
    pub open spec fn spec_from_key(key: Key) -> Option<Direction> {
        match key {
            Key::Down | Key::S => Some(Direction::Down),
            Key::Left | Key::A => Some(Direction::Left),
            Key::Right | Key::D => Some(Direction::Right),
            Key::Up | Key::W => Some(Direction::Up),
            _ => None,
        }
    }

    /// The direction a key press requests, or `None` for an unrecognized key.
    pub fn from_key(key: Key) -> (r: Option<Direction>)
        ensures
            r == Direction::spec_from_key(key),
    {
        match key {
            Key::Down | Key::S => Some(Direction::Down),
            Key::Left | Key::A => Some(Direction::Left),
            Key::Right | Key::D => Some(Direction::Right),
            Key::Up | Key::W => Some(Direction::Up),
            _ => None,
        }
    }
}

/// Law: `inverse` is an involution — applying it twice yields the original
/// direction, for every direction.
pub proof fn lemma_inverse_involution(d: Direction)
    ensures
        d.spec_inverse().spec_inverse() == d,
{
}

} // verus!
