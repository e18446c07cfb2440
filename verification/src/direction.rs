use vstd::prelude::*;

verus! {

/// Five-way anchor tag: how an aspect-ratio-constrained rendering area is
/// anchored inside a larger viewport (the middle, or one of the edges).
#[derive(Eq, PartialEq, Structural, Hash, Debug, Copy, Clone)]
pub enum Direction {
    Center,
    Top,
    Bottom,
    Left,
    Right,
}

impl Direction {
    /// Whether this is the `Center` anchor.
    pub fn is_center(&self) -> (r: bool)
        ensures
            r == (*self is Center),
    {
        *self == Direction::Center
    }

    /// Whether this is the `Top` anchor.
    pub fn is_top(&self) -> (r: bool)
        ensures
            r == (*self is Top),
    {
        *self == Direction::Top
    }

    /// Whether this is the `Bottom` anchor.
    pub fn is_bottom(&self) -> (r: bool)
        ensures
            r == (*self is Bottom),
    {
        *self == Direction::Bottom
    }

    /// Whether this is the `Left` anchor.
    pub fn is_left(&self) -> (r: bool)
        ensures
            r == (*self is Left),
    {
        *self == Direction::Left
    }

    /// Whether this is the `Right` anchor.
    pub fn is_right(&self) -> (r: bool)
        ensures
            r == (*self is Right),
    {
        *self == Direction::Right
    }
}

} // verus!
