use vstd::prelude::*;

verus! {

/// Which viewport dimension defines one unit of length for an isotropic
/// scale: the width, the height, or the longer or shorter of the two.
#[derive(Eq, PartialEq, Structural, Hash, Debug, Copy, Clone)]
pub enum UnitLength {
    Width,
    Height,
    MaxSide,
    MinSide,
}

impl UnitLength {
    /// Whether the unit is the viewport width.
    pub fn is_width(&self) -> (r: bool)
        ensures
            r == (*self is Width),
    {
        *self == UnitLength::Width
    }

    /// Whether the unit is the viewport height.
    pub fn is_height(&self) -> (r: bool)
        ensures
            r == (*self is Height),
    {
        *self == UnitLength::Height
    }

    /// Whether the unit is the longer viewport side.
    pub fn is_max_side(&self) -> (r: bool)
        ensures
            r == (*self is MaxSide),
    {
        *self == UnitLength::MaxSide
    }

    /// Whether the unit is the shorter viewport side.
    pub fn is_min_side(&self) -> (r: bool)
        ensures
            r == (*self is MinSide),
    {
        *self == UnitLength::MinSide
    }
}

} // verus!
