pub mod affine;
pub mod direction;
pub mod error;
pub mod origin;
pub mod rat;
pub mod scale;
pub mod scope;
pub mod unit_length;

pub use direction::Direction;
pub use error::TransformError;
pub use origin::Origin;
pub use rat::Rat;
pub use scale::Scale;
pub use scope::Scope;
pub use unit_length::UnitLength;

use vstd::prelude::*;

use crate::affine::{
    lemma_qa_compose_wf, lemma_qa_round_trip, qa_apply, qa_apply_fits, qa_compose,
    qa_compose_fits, qa_inverse, qa_inverse_fits, qa_nonsingular, qa_wf, AffineMatrix, QAffine,
};
use crate::origin::{lemma_origin_matrices_wf, spec_from_center, spec_to_center};
use crate::rat::{lemma_q_mul_nonzero, q_eq, q_wf, Q};
use crate::scale::{lemma_scale_matrix_wf, spec_scale_matrix};
use crate::scope::{
    lemma_effective_size_valid, lemma_offset_matrix_wf, spec_effective_size,
    spec_effective_size_fits, spec_offset_fits, spec_offset_matrix, spec_size_valid,
};

verus! {

/// Composition of a [`Scale`] policy with a [`Scope`] policy: the scope
/// first derives the effective rendering size from the viewport, and the
/// scale then turns that size into a unit-length scaling matrix.
#[derive(Eq, PartialEq, Structural, Hash, Debug, Copy, Clone)]
pub struct ScaleScope {
    pub scale: Scale,
    pub scope: Scope,
}

/// The scaling matrix a [`ScaleScope`] derives from the viewport `s`.
pub open spec fn spec_scale_scope_matrix(ss: ScaleScope, s: (Q, Q)) -> QAffine {
    spec_scale_matrix(ss.scale, spec_effective_size(ss.scope, s))
}

impl ScaleScope {
    /// The scope's own invariant (positive aspect parameters).
    pub open spec fn wf(self) -> bool {
        self.scope.wf()
    }

    /// The unit-length scaling matrix for the viewport `size`: the scale
    /// policy applied to the scope's effective rendering size.
    pub fn output_matrix(&self, size: &(Rat, Rat)) -> (r: Result<AffineMatrix, TransformError>)
        requires
            self.wf(),
            size.0.wf(),
            size.1.wf(),
        ensures
            r matches Ok(m) ==> m@ == spec_scale_scope_matrix(*self, (size.0@, size.1@))
                && m.wf(),
            (r matches Err(e) && e == TransformError::InvalidViewport) <==> !spec_size_valid(
                (size.0@, size.1@),
            ),
            spec_size_valid((size.0@, size.1@)) ==> (r is Ok <==> spec_effective_size_fits(
                self.scope,
                (size.0@, size.1@),
            )),
            r matches Err(e) ==> e == TransformError::InvalidViewport
                || e == TransformError::Overflow,
    {
        let e = match self.scope.effective_rendering_size(size) {
            Ok(v) => v,
            Err(err) => {
                return Err(err);
            },
        };
        Ok(self.scale.output_matrix(&e))
    }
}

/// The full mapping policy between a logical input coordinate convention
/// and a device output convention: a [`ScaleScope`] plus the two
/// [`Origin`] conventions. The runtime viewport size is supplied per
/// call and never stored, so one value serves any number of viewports.
#[derive(Eq, PartialEq, Structural, Hash, Debug, Copy, Clone)]
pub struct CoordinateSystem {
    pub scale_scope: ScaleScope,
    pub input_origin: Origin,
    pub output_origin: Origin,
}

/// The composed input-to-output matrix for the viewport `s`, built right
/// to left: input origin into the shared center convention, unit-length
/// scaling by the effective rendering size, the anchor-offset
/// translation, and finally the center convention into the output
/// origin's convention.
pub open spec fn spec_io_matrix(cs: CoordinateSystem, s: (Q, Q)) -> QAffine {
    qa_compose(
        spec_from_center(cs.output_origin),
        qa_compose(
            spec_offset_matrix(cs.scale_scope.scope, s),
            qa_compose(
                spec_scale_scope_matrix(cs.scale_scope, s),
                spec_to_center(cs.input_origin),
            ),
        ),
    )
}

/// All intermediate values of composing the input-to-output matrix stay
/// representable in 64-bit fractions.
pub open spec fn spec_io_fits(cs: CoordinateSystem, s: (Q, Q)) -> bool {
    let sm = spec_scale_scope_matrix(cs.scale_scope, s);
    let tin = spec_to_center(cs.input_origin);
    let m1 = qa_compose(sm, tin);
    let off = spec_offset_matrix(cs.scale_scope.scope, s);
    let m2 = qa_compose(off, m1);
    let fout = spec_from_center(cs.output_origin);
    &&& spec_effective_size_fits(cs.scale_scope.scope, s)
    &&& spec_offset_fits(cs.scale_scope.scope, s)
    &&& qa_compose_fits(sm, tin)
    &&& qa_compose_fits(off, m1)
    &&& qa_compose_fits(fout, m2)
}

/// For a valid configuration and viewport the composed matrix is
/// well-formed and nonsingular: every diagonal factor (origin scales,
/// positive effective lengths, unit offset diagonal) is nonzero.
pub proof fn lemma_io_matrix_nonsingular(cs: CoordinateSystem, s: (Q, Q))
    requires
        cs.wf(),
        spec_size_valid(s),
    ensures
        qa_wf(spec_io_matrix(cs, s)),
        qa_nonsingular(spec_io_matrix(cs, s)),
{
    let sc = cs.scale_scope.scope;
    let e = spec_effective_size(sc, s);
    let sm = spec_scale_scope_matrix(cs.scale_scope, s);
    let tin = spec_to_center(cs.input_origin);
    let m1 = qa_compose(sm, tin);
    let off = spec_offset_matrix(sc, s);
    let m2 = qa_compose(off, m1);
    let fout = spec_from_center(cs.output_origin);
    lemma_effective_size_valid(sc, s);
    lemma_scale_matrix_wf(cs.scale_scope.scale, e);
    lemma_origin_matrices_wf(cs.input_origin);
    lemma_origin_matrices_wf(cs.output_origin);
    lemma_offset_matrix_wf(sc, s);
    lemma_qa_compose_wf(sm, tin);
    lemma_qa_compose_wf(off, m1);
    lemma_qa_compose_wf(fout, m2);
    lemma_q_mul_nonzero(sm.sx, tin.sx);
    lemma_q_mul_nonzero(sm.sy, tin.sy);
    lemma_q_mul_nonzero(off.sx, m1.sx);
    lemma_q_mul_nonzero(off.sy, m1.sy);
    lemma_q_mul_nonzero(fout.sx, m2.sx);
    lemma_q_mul_nonzero(fout.sy, m2.sy);
}

/// Round trip: for every valid configuration, viewport and point, mapping
/// into output coordinates and then back through the inverse transform
/// returns the original point, exactly, as rational numbers.
pub proof fn lemma_round_trip(cs: CoordinateSystem, s: (Q, Q), p: (Q, Q))
    requires
        cs.wf(),
        spec_size_valid(s),
        q_wf(p.0),
        q_wf(p.1),
    ensures
        q_eq(
            qa_apply(qa_inverse(spec_io_matrix(cs, s)), qa_apply(spec_io_matrix(cs, s), p)).0,
            p.0,
        ),
        q_eq(
            qa_apply(qa_inverse(spec_io_matrix(cs, s)), qa_apply(spec_io_matrix(cs, s), p)).1,
            p.1,
        ),
{
    lemma_io_matrix_nonsingular(cs, s);
    lemma_qa_round_trip(spec_io_matrix(cs, s), p);
}

impl CoordinateSystem {
    /// The configuration is valid (positive aspect parameters).
    pub open spec fn wf(self) -> bool {
        self.scale_scope.wf()
    }

    /// The composed input-to-output transform matrix for the viewport
    /// `size` (see [`spec_io_matrix`] for the composition order).
    pub fn io_transform_matrix(&self, size: &(Rat, Rat)) -> (r: Result<
        AffineMatrix,
        TransformError,
    >)
        requires
            self.wf(),
            size.0.wf(),
            size.1.wf(),
        ensures
            r matches Ok(m) ==> m@ == spec_io_matrix(*self, (size.0@, size.1@)) && m.wf(),
            (r matches Err(e) && e == TransformError::InvalidViewport) <==> !spec_size_valid(
                (size.0@, size.1@),
            ),
            spec_size_valid((size.0@, size.1@)) ==> (r is Ok <==> spec_io_fits(
                *self,
                (size.0@, size.1@),
            )),
            r matches Err(e) ==> e == TransformError::InvalidViewport
                || e == TransformError::Overflow,
    {
        let sm = match self.scale_scope.output_matrix(size) {
            Ok(v) => v,
            Err(err) => {
                return Err(err);
            },
        };
        let tin = self.input_origin.to_center_matrix();
        let m1 = match sm.compose(tin) {
            Some(v) => v,
            None => {
                return Err(TransformError::Overflow);
            },
        };
        let off = match self.scale_scope.scope.effective_unit_offset_matrix(size) {
            Ok(v) => v,
            Err(err) => {
                return Err(err);
            },
        };
        let m2 = match off.compose(m1) {
            Some(v) => v,
            None => {
                return Err(TransformError::Overflow);
            },
        };
        let fout = self.output_origin.from_center_matrix();
        match fout.compose(m2) {
            Some(v) => Ok(v),
            None => Err(TransformError::Overflow),
        }
    }

    /// Maps a point from the input convention into the output convention
    /// by applying the composed transform matrix.
    pub fn into_output_coordinates(&self, input: (Rat, Rat), size: &(Rat, Rat)) -> (r: Result<
        (Rat, Rat),
        TransformError,
    >)
        requires
            self.wf(),
            input.0.wf(),
            input.1.wf(),
            size.0.wf(),
            size.1.wf(),
        ensures
            r matches Ok(v) ==> v.0@ == qa_apply(
                spec_io_matrix(*self, (size.0@, size.1@)),
                (input.0@, input.1@),
            ).0 && v.1@ == qa_apply(
                spec_io_matrix(*self, (size.0@, size.1@)),
                (input.0@, input.1@),
            ).1 && v.0.wf() && v.1.wf(),
            (r matches Err(e) && e == TransformError::InvalidViewport) <==> !spec_size_valid(
                (size.0@, size.1@),
            ),
            spec_size_valid((size.0@, size.1@)) ==> (r is Ok <==> spec_io_fits(
                *self,
                (size.0@, size.1@),
            ) && qa_apply_fits(spec_io_matrix(*self, (size.0@, size.1@)), (input.0@, input.1@))),
            r matches Err(e) ==> e == TransformError::InvalidViewport
                || e == TransformError::Overflow,
    {
        let m = match self.io_transform_matrix(size) {
            Ok(v) => v,
            Err(err) => {
                return Err(err);
            },
        };
        match m.apply(input) {
            Some(v) => Ok(v),
            None => Err(TransformError::Overflow),
        }
    }

    /// Maps a point from the output convention back into the input
    /// convention by inverting the composed matrix, recomputed from the
    /// forward matrix on every call. For a valid viewport the forward
    /// matrix is provably nonsingular, so the `SingularTransform` guard
    /// below is never taken.
    pub fn into_input_coordinates(&self, output: (Rat, Rat), size: &(Rat, Rat)) -> (r: Result<
        (Rat, Rat),
        TransformError,
    >)
        requires
            self.wf(),
            output.0.wf(),
            output.1.wf(),
            size.0.wf(),
            size.1.wf(),
        ensures
            r matches Ok(v) ==> v.0@ == qa_apply(
                qa_inverse(spec_io_matrix(*self, (size.0@, size.1@))),
                (output.0@, output.1@),
            ).0 && v.1@ == qa_apply(
                qa_inverse(spec_io_matrix(*self, (size.0@, size.1@))),
                (output.0@, output.1@),
            ).1 && v.0.wf() && v.1.wf(),
            (r matches Err(e) && e == TransformError::InvalidViewport) <==> !spec_size_valid(
                (size.0@, size.1@),
            ),
            spec_size_valid((size.0@, size.1@)) ==> (r is Ok <==> spec_io_fits(
                *self,
                (size.0@, size.1@),
            ) && qa_inverse_fits(spec_io_matrix(*self, (size.0@, size.1@))) && qa_apply_fits(
                qa_inverse(spec_io_matrix(*self, (size.0@, size.1@))),
                (output.0@, output.1@),
            )),
            r matches Err(e) ==> e == TransformError::InvalidViewport
                || e == TransformError::Overflow,
    {
        let m = match self.io_transform_matrix(size) {
            Ok(v) => v,
            Err(err) => {
                return Err(err);
            },
        };
        proof {
            lemma_io_matrix_nonsingular(*self, (size.0@, size.1@));
        }
        if m.is_singular() {
            return Err(TransformError::SingularTransform);
        }
        let inv = match m.checked_inverse() {
            Some(v) => v,
            None => {
                return Err(TransformError::Overflow);
            },
        };
        match inv.apply(output) {
            Some(v) => Ok(v),
            None => Err(TransformError::Overflow),
        }
    }
}

} // verus!
