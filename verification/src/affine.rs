use vstd::prelude::*;

use crate::rat::{
    lemma_q_add_congruence, lemma_q_add_neg_cancel, lemma_q_add_wf, lemma_q_eq_trans,
    lemma_q_inv_wf, lemma_q_mul_comm, lemma_q_mul_dist, lemma_q_mul_inv_cancel, lemma_q_mul_wf,
    q_add, q_div, q_eq, q_fits, q_int, q_inv, q_mul, q_neg, q_wf, Q, Rat,
};

verus! {

/// Specification-level model of an axis-aligned affine transform of the
/// plane: the 3x3 homogeneous matrix
///
/// ```text
/// | sx  0  tx |
/// |  0 sy  ty |
/// |  0  0   1 |
/// ```
///
/// which maps `(x, y, 1)` to `(sx*x + tx, sy*y + ty, 1)`. Every transform
/// this crate composes (axis flips, half scales, unit scaling, margin
/// translations) has this shape, so the two free diagonal entries and the
/// two translation entries model the full matrix.
pub struct QAffine {
    pub sx: Q,
    pub tx: Q,
    pub sy: Q,
    pub ty: Q,
}

/// All four entries are well-formed fractions.
pub open spec fn qa_wf(m: QAffine) -> bool {
    q_wf(m.sx) && q_wf(m.tx) && q_wf(m.sy) && q_wf(m.ty)
}

/// The identity transform.
pub open spec fn qa_identity() -> QAffine {
    (QAffine { sx: q_int(1), tx: q_int(0), sy: q_int(1), ty: q_int(0) })
}

/// Matrix product `a * b`: the transform that applies `b` first, then `a`.
pub open spec fn qa_compose(a: QAffine, b: QAffine) -> QAffine {
    (QAffine {
        sx: q_mul(a.sx, b.sx),
        tx: q_add(q_mul(a.sx, b.tx), a.tx),
        sy: q_mul(a.sy, b.sy),
        ty: q_add(q_mul(a.sy, b.ty), a.ty),
    })
}

/// The transform applied to the homogeneous point `(x, y, 1)`.
pub open spec fn qa_apply(m: QAffine, p: (Q, Q)) -> (Q, Q) {
    (q_add(q_mul(m.sx, p.0), m.tx), q_add(q_mul(m.sy, p.1), m.ty))
}

/// The transform is invertible: its determinant `sx * sy` is nonzero.
pub open spec fn qa_nonsingular(m: QAffine) -> bool {
    m.sx.n != 0 && m.sy.n != 0
}

/// The analytic inverse: `x' = x/sx - tx/sx`, and likewise for `y`.
pub open spec fn qa_inverse(m: QAffine) -> QAffine {
    (QAffine {
        sx: q_inv(m.sx),
        tx: q_neg(q_div(m.tx, m.sx)),
        sy: q_inv(m.sy),
        ty: q_neg(q_div(m.ty, m.sy)),
    })
}

/// Entrywise equality of the denoted rational entries.
pub open spec fn qa_eq(a: QAffine, b: QAffine) -> bool {
    q_eq(a.sx, b.sx) && q_eq(a.tx, b.tx) && q_eq(a.sy, b.sy) && q_eq(a.ty, b.ty)
}

/// All intermediate values of the composition `a * b` stay representable.
pub open spec fn qa_compose_fits(a: QAffine, b: QAffine) -> bool {
    &&& q_fits(q_mul(a.sx, b.sx))
    &&& q_fits(q_mul(a.sx, b.tx))
    &&& q_fits(q_add(q_mul(a.sx, b.tx), a.tx))
    &&& q_fits(q_mul(a.sy, b.sy))
    &&& q_fits(q_mul(a.sy, b.ty))
    &&& q_fits(q_add(q_mul(a.sy, b.ty), a.ty))
}

/// All intermediate values of applying `m` to `p` stay representable.
pub open spec fn qa_apply_fits(m: QAffine, p: (Q, Q)) -> bool {
    &&& q_fits(q_mul(m.sx, p.0))
    &&& q_fits(q_add(q_mul(m.sx, p.0), m.tx))
    &&& q_fits(q_mul(m.sy, p.1))
    &&& q_fits(q_add(q_mul(m.sy, p.1), m.ty))
}

/// All intermediate values of inverting `m` stay representable.
pub open spec fn qa_inverse_fits(m: QAffine) -> bool {
    &&& q_fits(q_inv(m.sx))
    &&& q_fits(q_div(m.tx, m.sx))
    &&& q_fits(q_neg(q_div(m.tx, m.sx)))
    &&& q_fits(q_inv(m.sy))
    &&& q_fits(q_div(m.ty, m.sy))
    &&& q_fits(q_neg(q_div(m.ty, m.sy)))
}

/// Composing preserves well-formedness.
pub proof fn lemma_qa_compose_wf(a: QAffine, b: QAffine)
    requires
        qa_wf(a),
        qa_wf(b),
    ensures
        qa_wf(qa_compose(a, b)),
{
    lemma_q_mul_wf(a.sx, b.sx);
    lemma_q_mul_wf(a.sx, b.tx);
    lemma_q_add_wf(q_mul(a.sx, b.tx), a.tx);
    lemma_q_mul_wf(a.sy, b.sy);
    lemma_q_mul_wf(a.sy, b.ty);
    lemma_q_add_wf(q_mul(a.sy, b.ty), a.ty);
}

/// One axis of the round trip: scaling by `s`, translating by `t`, and
/// then applying the inverse map `x' = x/s - t/s` gives the start back.
proof fn lemma_axis_cancel(s: Q, t: Q, x: Q)
    requires
        q_wf(s),
        q_wf(t),
        q_wf(x),
        s.n != 0,
    ensures
        q_eq(q_add(q_mul(q_inv(s), q_add(q_mul(s, x), t)), q_neg(q_div(t, s))), x),
{
    let i = q_inv(s);
    let mx = q_mul(s, x);
    let fwd = q_add(mx, t);
    let it = q_mul(i, t);
    lemma_q_inv_wf(s);
    lemma_q_mul_wf(s, x);
    lemma_q_add_wf(mx, t);
    lemma_q_mul_wf(i, fwd);
    lemma_q_mul_wf(i, mx);
    lemma_q_mul_wf(i, t);
    lemma_q_add_wf(q_mul(i, mx), it);
    lemma_q_add_wf(x, it);
    // Distribute the reciprocal over the forward sum.
    lemma_q_mul_dist(i, mx, t);
    // The scaled term collapses back to `x`.
    lemma_q_mul_inv_cancel(s, x);
    lemma_q_add_congruence(q_mul(i, mx), x, it, it);
    lemma_q_eq_trans(q_mul(i, fwd), q_add(q_mul(i, mx), it), q_add(x, it));
    // The quotient subtracted at the end is the same translation term.
    lemma_q_mul_comm(t, i);
    lemma_q_add_congruence(q_mul(i, fwd), q_add(x, it), q_neg(it), q_neg(it));
    // Adding and subtracting the translation cancels.
    lemma_q_add_neg_cancel(x, it, it);
    lemma_q_add_wf(q_mul(i, fwd), q_neg(it));
    lemma_q_add_wf(q_add(x, it), q_neg(it));
    lemma_q_eq_trans(
        q_add(q_mul(i, fwd), q_neg(it)),
        q_add(q_add(x, it), q_neg(it)),
        x,
    );
}

/// Round trip through a nonsingular transform: applying `m` and then its
/// inverse returns the original point, as rational numbers.
pub proof fn lemma_qa_round_trip(m: QAffine, p: (Q, Q))
    requires
        qa_wf(m),
        q_wf(p.0),
        q_wf(p.1),
        qa_nonsingular(m),
    ensures
        q_eq(qa_apply(qa_inverse(m), qa_apply(m, p)).0, p.0),
        q_eq(qa_apply(qa_inverse(m), qa_apply(m, p)).1, p.1),
{
    lemma_axis_cancel(m.sx, m.tx, p.0);
    lemma_axis_cancel(m.sy, m.ty, p.1);
}

/// An exact axis-aligned affine transform with rational entries,
/// standing for the 3x3 homogeneous matrix
///
/// ```text
/// | sx  0  tx |
/// |  0 sy  ty |
/// |  0  0   1 |
/// ```
#[derive(Clone, Copy, Debug, PartialEq, Eq, Structural)]
pub struct AffineMatrix {
    pub sx: Rat,
    pub tx: Rat,
    pub sy: Rat,
    pub ty: Rat,
}

impl View for AffineMatrix {
    type V = QAffine;

    open spec fn view(&self) -> QAffine {
        (QAffine { sx: self.sx@, tx: self.tx@, sy: self.sy@, ty: self.ty@ })
    }
}

impl AffineMatrix {
    /// All entries have positive denominators.
    pub open spec fn wf(self) -> bool {
        self.sx.wf() && self.tx.wf() && self.sy.wf() && self.ty.wf()
    }

    /// The identity transform.
    pub fn identity() -> (r: AffineMatrix)
        ensures
            r@ == qa_identity(),
            r.wf(),
    {
        AffineMatrix { sx: Rat::one(), tx: Rat::zero(), sy: Rat::one(), ty: Rat::zero() }
    }

    /// Builds the transform from its four defining entries.
    pub fn new(sx: Rat, tx: Rat, sy: Rat, ty: Rat) -> (r: AffineMatrix)
        requires
            sx.wf(),
            tx.wf(),
            sy.wf(),
            ty.wf(),
        ensures
            r@ == (QAffine { sx: sx@, tx: tx@, sy: sy@, ty: ty@ }),
            r.wf(),
    {
        AffineMatrix { sx, tx, sy, ty }
    }

    /// Matrix product `self * other` (apply `other` first); `None` exactly
    /// when an intermediate value leaves the 64-bit range.
    pub fn compose(self, other: AffineMatrix) -> (r: Option<AffineMatrix>)
        requires
            self.wf(),
            other.wf(),
        ensures
            r matches Some(v) ==> v@ == qa_compose(self@, other@) && v.wf(),
            r is Some <==> qa_compose_fits(self@, other@),
    {
        let sx = match self.sx.checked_mul(other.sx) {
            Some(v) => v,
            None => {
                return None;
            },
        };
        let txm = match self.sx.checked_mul(other.tx) {
            Some(v) => v,
            None => {
                return None;
            },
        };
        let tx = match txm.checked_add(self.tx) {
            Some(v) => v,
            None => {
                return None;
            },
        };
        let sy = match self.sy.checked_mul(other.sy) {
            Some(v) => v,
            None => {
                return None;
            },
        };
        let tym = match self.sy.checked_mul(other.ty) {
            Some(v) => v,
            None => {
                return None;
            },
        };
        let ty = match tym.checked_add(self.ty) {
            Some(v) => v,
            None => {
                return None;
            },
        };
        Some(AffineMatrix { sx, tx, sy, ty })
    }

    /// Applies the transform to the point `(p.0, p.1)`; `None` exactly when
    /// an intermediate value leaves the 64-bit range.
    pub fn apply(self, p: (Rat, Rat)) -> (r: Option<(Rat, Rat)>)
        requires
            self.wf(),
            p.0.wf(),
            p.1.wf(),
        ensures
            r matches Some(v) ==> v.0@ == qa_apply(self@, (p.0@, p.1@)).0 && v.1@ == qa_apply(
                self@,
                (p.0@, p.1@),
            ).1 && v.0.wf() && v.1.wf(),
            r is Some <==> qa_apply_fits(self@, (p.0@, p.1@)),
    {
        let xm = match self.sx.checked_mul(p.0) {
            Some(v) => v,
            None => {
                return None;
            },
        };
        let x = match xm.checked_add(self.tx) {
            Some(v) => v,
            None => {
                return None;
            },
        };
        let ym = match self.sy.checked_mul(p.1) {
            Some(v) => v,
            None => {
                return None;
            },
        };
        let y = match ym.checked_add(self.ty) {
            Some(v) => v,
            None => {
                return None;
            },
        };
        Some((x, y))
    }

    /// Whether the transform is singular (determinant zero); such a
    /// transform has no inverse.
    pub fn is_singular(self) -> (r: bool)
        requires
            self.wf(),
        ensures
            r == !qa_nonsingular(self@),
    {
        self.sx.num == 0 || self.sy.num == 0
    }

    /// The analytic inverse of a nonsingular transform; `None` exactly
    /// when an intermediate value leaves the 64-bit range.
    pub fn checked_inverse(self) -> (r: Option<AffineMatrix>)
        requires
            self.wf(),
            qa_nonsingular(self@),
        ensures
            r matches Some(v) ==> v@ == qa_inverse(self@) && v.wf(),
            r is Some <==> qa_inverse_fits(self@),
    {
        let isx = match self.sx.checked_inv() {
            Some(v) => v,
            None => {
                return None;
            },
        };
        let txq = match self.tx.checked_div(self.sx) {
            Some(v) => v,
            None => {
                return None;
            },
        };
        let itx = match txq.checked_neg() {
            Some(v) => v,
            None => {
                return None;
            },
        };
        let isy = match self.sy.checked_inv() {
            Some(v) => v,
            None => {
                return None;
            },
        };
        let tyq = match self.ty.checked_div(self.sy) {
            Some(v) => v,
            None => {
                return None;
            },
        };
        let ity = match tyq.checked_neg() {
            Some(v) => v,
            None => {
                return None;
            },
        };
        Some(AffineMatrix { sx: isx, tx: itx, sy: isy, ty: ity })
    }
}

} // verus!
