use vstd::prelude::*;

use crate::affine::{qa_compose, qa_eq, qa_identity, qa_wf, AffineMatrix, QAffine};
use crate::rat::{Q, Rat};

verus! {

/// Where a coordinate convention puts its zero point: the middle of the
/// area, or one of its four corners. A corner origin also fixes the sign
/// convention of the axes (see [`Origin::to_center_matrix`]).
#[derive(Eq, PartialEq, Structural, Hash, Debug, Copy, Clone)]
pub enum Origin {
    Center,
    TopLeft,
    TopRight,
    BottomLeft,
    BottomRight,
}

/// The matrix taking this origin's convention into the shared
/// center-based convention, built (right to left) from a vertical flip, a
/// horizontal flip, a half scale, and a corner translation:
///
/// | origin      | x column      | y column      |
/// |-------------|---------------|---------------|
/// | Center      | ( 1,    0  )  | ( 1,    0  )  |
/// | TopLeft     | ( 1/2, -1/2)  | (-1/2, +1/2)  |
/// | TopRight    | (-1/2, +1/2)  | (-1/2, +1/2)  |
/// | BottomLeft  | ( 1/2, -1/2)  | ( 1/2, -1/2)  |
/// | BottomRight | (-1/2, +1/2)  | ( 1/2, -1/2)  |
///
/// Each column is the pair (scale entry, translation entry) of that axis.
pub open spec fn spec_to_center(o: Origin) -> QAffine {
    match o {
        Origin::Center => qa_identity(),
        Origin::TopLeft => (QAffine {
            sx: (Q { n: 1, d: 2 }),
            tx: (Q { n: -1, d: 2 }),
            sy: (Q { n: -1, d: 2 }),
            ty: (Q { n: 1, d: 2 }),
        }),
        Origin::TopRight => (QAffine {
            sx: (Q { n: -1, d: 2 }),
            tx: (Q { n: 1, d: 2 }),
            sy: (Q { n: -1, d: 2 }),
            ty: (Q { n: 1, d: 2 }),
        }),
        Origin::BottomLeft => (QAffine {
            sx: (Q { n: 1, d: 2 }),
            tx: (Q { n: -1, d: 2 }),
            sy: (Q { n: 1, d: 2 }),
            ty: (Q { n: -1, d: 2 }),
        }),
        Origin::BottomRight => (QAffine {
            sx: (Q { n: -1, d: 2 }),
            tx: (Q { n: 1, d: 2 }),
            sy: (Q { n: 1, d: 2 }),
            ty: (Q { n: -1, d: 2 }),
        }),
    }
}

/// The analytic inverse of [`spec_to_center`]: it takes the shared
/// center-based convention back into this origin's own convention.
pub open spec fn spec_from_center(o: Origin) -> QAffine {
    match o {
        Origin::Center => qa_identity(),
        Origin::TopLeft => (QAffine {
            sx: (Q { n: 2, d: 1 }),
            tx: (Q { n: 1, d: 1 }),
            sy: (Q { n: -2, d: 1 }),
            ty: (Q { n: 1, d: 1 }),
        }),
        Origin::TopRight => (QAffine {
            sx: (Q { n: -2, d: 1 }),
            tx: (Q { n: 1, d: 1 }),
            sy: (Q { n: -2, d: 1 }),
            ty: (Q { n: 1, d: 1 }),
        }),
        Origin::BottomLeft => (QAffine {
            sx: (Q { n: 2, d: 1 }),
            tx: (Q { n: 1, d: 1 }),
            sy: (Q { n: 2, d: 1 }),
            ty: (Q { n: 1, d: 1 }),
        }),
        Origin::BottomRight => (QAffine {
            sx: (Q { n: -2, d: 1 }),
            tx: (Q { n: 1, d: 1 }),
            sy: (Q { n: 2, d: 1 }),
            ty: (Q { n: 1, d: 1 }),
        }),
    }
}

/// Both origin matrices are well-formed, their scale entries are nonzero,
/// and the two are inverse to each other in the sense that the forward
/// entries are never zero.
pub proof fn lemma_origin_matrices_wf(o: Origin)
    ensures
        qa_wf(spec_to_center(o)),
        qa_wf(spec_from_center(o)),
        spec_to_center(o).sx.n != 0,
        spec_to_center(o).sy.n != 0,
        spec_from_center(o).sx.n != 0,
        spec_from_center(o).sy.n != 0,
{
    match o {
        Origin::Center => {},
        Origin::TopLeft => {},
        Origin::TopRight => {},
        Origin::BottomLeft => {},
        Origin::BottomRight => {},
    }
}

/// The center origin already uses the shared convention: its matrix into
/// the center convention is the identity matrix, exactly.
pub proof fn lemma_center_origin_neutral()
    ensures
        spec_to_center(Origin::Center) == qa_identity(),
        spec_from_center(Origin::Center) == qa_identity(),
{
}

/// For every origin, the matrix into the center convention and the matrix
/// out of it are mutually inverse: both products are the identity matrix
/// (entrywise, as rational numbers).
pub proof fn lemma_origin_matrices_inverse(o: Origin)
    ensures
        qa_eq(qa_compose(spec_to_center(o), spec_from_center(o)), qa_identity()),
        qa_eq(qa_compose(spec_from_center(o), spec_to_center(o)), qa_identity()),
{
    match o {
        Origin::Center => {},
        Origin::TopLeft => {},
        Origin::TopRight => {},
        Origin::BottomLeft => {},
        Origin::BottomRight => {},
    }
}

impl Origin {
    /// Whether this is the `Center` origin.
    pub fn is_center(&self) -> (r: bool)
        ensures
            r == (*self is Center),
    {
        *self == Origin::Center
    }

    /// Whether this is the `TopLeft` origin.
    pub fn is_top_left(&self) -> (r: bool)
        ensures
            r == (*self is TopLeft),
    {
        *self == Origin::TopLeft
    }

    /// Whether this is the `TopRight` origin.
    pub fn is_top_right(&self) -> (r: bool)
        ensures
            r == (*self is TopRight),
    {
        *self == Origin::TopRight
    }

    /// Whether this is the `BottomLeft` origin.
    pub fn is_bottom_left(&self) -> (r: bool)
        ensures
            r == (*self is BottomLeft),
    {
        *self == Origin::BottomLeft
    }

    /// Whether this is the `BottomRight` origin.
    pub fn is_bottom_right(&self) -> (r: bool)
        ensures
            r == (*self is BottomRight),
    {
        *self == Origin::BottomRight
    }

    /// Whether moving into the center convention flips the horizontal
    /// axis; true for the right-hand corner origins.
    pub fn will_flip_x(&self) -> (r: bool)
        ensures
            r == (*self is TopRight || *self is BottomRight),
            r == (spec_to_center(*self).sx.n < 0),
    {
        *self == Origin::TopRight || *self == Origin::BottomRight
    }

    /// Whether moving into the center convention flips the vertical axis;
    /// true for the top corner origins.
    pub fn will_flip_y(&self) -> (r: bool)
        ensures
            r == (*self is TopLeft || *self is TopRight),
            r == (spec_to_center(*self).sy.n < 0),
    {
        *self == Origin::TopLeft || *self == Origin::TopRight
    }

    /// The matrix from this origin's convention into the shared
    /// center-based convention (see [`spec_to_center`] for the table).
    pub fn to_center_matrix(&self) -> (r: AffineMatrix)
        ensures
            r@ == spec_to_center(*self),
            r.wf(),
    {
        match self {
            Origin::Center => AffineMatrix::identity(),
            Origin::TopLeft => AffineMatrix::new(
                Rat::new(1, 2),
                Rat::new(-1, 2),
                Rat::new(-1, 2),
                Rat::new(1, 2),
            ),
            Origin::TopRight => AffineMatrix::new(
                Rat::new(-1, 2),
                Rat::new(1, 2),
                Rat::new(-1, 2),
                Rat::new(1, 2),
            ),
            Origin::BottomLeft => AffineMatrix::new(
                Rat::new(1, 2),
                Rat::new(-1, 2),
                Rat::new(1, 2),
                Rat::new(-1, 2),
            ),
            Origin::BottomRight => AffineMatrix::new(
                Rat::new(-1, 2),
                Rat::new(1, 2),
                Rat::new(1, 2),
                Rat::new(-1, 2),
            ),
        }
    }

    /// The matrix from the shared center-based convention back into this
    /// origin's convention: the exact inverse of [`Origin::to_center_matrix`].
    pub fn from_center_matrix(&self) -> (r: AffineMatrix)
        ensures
            r@ == spec_from_center(*self),
            r.wf(),
    {
        match self {
            Origin::Center => AffineMatrix::identity(),
            Origin::TopLeft => AffineMatrix::new(
                Rat::new(2, 1),
                Rat::new(1, 1),
                Rat::new(-2, 1),
                Rat::new(1, 1),
            ),
            Origin::TopRight => AffineMatrix::new(
                Rat::new(-2, 1),
                Rat::new(1, 1),
                Rat::new(-2, 1),
                Rat::new(1, 1),
            ),
            Origin::BottomLeft => AffineMatrix::new(
                Rat::new(2, 1),
                Rat::new(1, 1),
                Rat::new(2, 1),
                Rat::new(1, 1),
            ),
            Origin::BottomRight => AffineMatrix::new(
                Rat::new(-2, 1),
                Rat::new(1, 1),
                Rat::new(2, 1),
                Rat::new(1, 1),
            ),
        }
    }
}

} // verus!
