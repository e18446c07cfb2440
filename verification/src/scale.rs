use vstd::prelude::*;

use crate::affine::{qa_eq, qa_wf, AffineMatrix, QAffine};
use crate::rat::{q_eq, q_int, q_lt, q_wf, Q, Rat};
use crate::unit_length::UnitLength;

verus! {

/// Policy turning an effective rendering size into a unit-length scaling
/// matrix: `Square` derives one isotropic unit length from a single
/// dimension, `Scale` maps one unit to the full width and height each.
#[derive(Eq, PartialEq, Structural, Hash, Debug, Copy, Clone)]
pub enum Scale {
    Square(UnitLength),
    Scale,
}

/// The isotropic unit length a [`UnitLength`] selects from an effective
/// size: one dimension, or the longer or shorter of the two (ties go to
/// the width).
pub open spec fn spec_unit_length(u: UnitLength, e: (Q, Q)) -> Q {
    match u {
        UnitLength::Width => e.0,
        UnitLength::Height => e.1,
        UnitLength::MaxSide => if q_lt(e.0, e.1) {
            e.1
        } else {
            e.0
        },
        UnitLength::MinSide => if q_lt(e.1, e.0) {
            e.1
        } else {
            e.0
        },
    }
}

/// The scaling matrix a [`Scale`] derives from an effective size: a pure
/// diagonal, anisotropic `(width, height)` for `Scale` and isotropic
/// `(L, L)` for `Square`.
pub open spec fn spec_scale_matrix(s: Scale, e: (Q, Q)) -> QAffine {
    match s {
        Scale::Scale => (QAffine { sx: e.0, tx: q_int(0), sy: e.1, ty: q_int(0) }),
        Scale::Square(u) => (QAffine {
            sx: spec_unit_length(u, e),
            tx: q_int(0),
            sy: spec_unit_length(u, e),
            ty: q_int(0),
        }),
    }
}

/// The scaling matrix is well-formed, and its diagonal stays positive for
/// a positive effective size.
pub proof fn lemma_scale_matrix_wf(s: Scale, e: (Q, Q))
    requires
        q_wf(e.0),
        q_wf(e.1),
        q_lt(q_int(0), e.0),
        q_lt(q_int(0), e.1),
    ensures
        qa_wf(spec_scale_matrix(s, e)),
        q_lt(q_int(0), spec_scale_matrix(s, e).sx),
        q_lt(q_int(0), spec_scale_matrix(s, e).sy),
        spec_scale_matrix(s, e).sx.n > 0,
        spec_scale_matrix(s, e).sy.n > 0,
{
}

/// For a square effective size the four isotropic unit-length choices all
/// select the same length, so the four `Square` scale modes produce the
/// same output matrix (entrywise, as rational numbers).
pub proof fn lemma_square_modes_agree(e: (Q, Q))
    requires
        q_wf(e.0),
        q_wf(e.1),
        q_eq(e.0, e.1),
    ensures
        qa_eq(
            spec_scale_matrix(Scale::Square(UnitLength::Height), e),
            spec_scale_matrix(Scale::Square(UnitLength::Width), e),
        ),
        qa_eq(
            spec_scale_matrix(Scale::Square(UnitLength::MaxSide), e),
            spec_scale_matrix(Scale::Square(UnitLength::Width), e),
        ),
        qa_eq(
            spec_scale_matrix(Scale::Square(UnitLength::MinSide), e),
            spec_scale_matrix(Scale::Square(UnitLength::Width), e),
        ),
{
}

impl Scale {
    /// Whether this is an isotropic `Square` scale.
    pub fn is_square(&self) -> (r: bool)
        ensures
            r == (*self is Square),
    {
        matches!(self, Scale::Square(_))
    }

    /// Whether this is the anisotropic `Scale` mode.
    pub fn is_scale(&self) -> (r: bool)
        ensures
            r == (*self is Scale),
    {
        matches!(self, Scale::Scale)
    }

    /// The unit-length scaling matrix for the given effective rendering
    /// size (see [`spec_scale_matrix`]).
    pub fn output_matrix(&self, target_dimensions: &(Rat, Rat)) -> (r: AffineMatrix)
        requires
            target_dimensions.0.wf(),
            target_dimensions.1.wf(),
        ensures
            r@ == spec_scale_matrix(*self, (target_dimensions.0@, target_dimensions.1@)),
            r.wf(),
    {
        let unit_length: Rat = match self {
            Scale::Scale => {
                return AffineMatrix::new(
                    target_dimensions.0,
                    Rat::zero(),
                    target_dimensions.1,
                    Rat::zero(),
                );
            },
            Scale::Square(UnitLength::Width) => target_dimensions.0,
            Scale::Square(UnitLength::Height) => target_dimensions.1,
            Scale::Square(UnitLength::MaxSide) => {
                if target_dimensions.0.lt(target_dimensions.1) {
                    target_dimensions.1
                } else {
                    target_dimensions.0
                }
            },
            Scale::Square(UnitLength::MinSide) => {
                if target_dimensions.1.lt(target_dimensions.0) {
                    target_dimensions.1
                } else {
                    target_dimensions.0
                }
            },
        };
        AffineMatrix::new(unit_length, Rat::zero(), unit_length, Rat::zero())
    }
}

} // verus!
