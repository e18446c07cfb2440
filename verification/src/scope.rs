use vstd::prelude::*;

use crate::affine::{qa_wf, AffineMatrix, QAffine};
use crate::direction::Direction;
use crate::error::TransformError;
use crate::rat::{
    lemma_q_add_wf, lemma_q_div_le_scale, lemma_q_div_mul_cancel, lemma_q_div_pos,
    lemma_q_eq_trans, lemma_q_mul_comm, lemma_q_mul_pos, lemma_q_mul_wf, q_div, q_eq, q_fits,
    q_half, q_int, q_le, q_lt, q_mul, q_neg, q_sub, q_wf, Q, Rat,
};

verus! {

/// A viewport size is valid when both components are well-formed and
/// strictly positive.
pub open spec fn spec_size_valid(s: (Q, Q)) -> bool {
    q_wf(s.0) && q_wf(s.1) && q_lt(q_int(0), s.0) && q_lt(q_int(0), s.1)
}

/// Policy deriving the effective rendering area from the raw viewport:
/// either the whole viewport, or the largest area of a fixed `w:h` aspect
/// ratio that fits inside it, anchored by a [`Direction`].
#[derive(Eq, PartialEq, Structural, Hash, Debug, Copy, Clone)]
pub enum Scope {
    Whole,
    AspectRatio(Rat, Rat, Direction),
}

/// The effective rendering size a scope carves out of the viewport `s`.
/// For `AspectRatio(aw, ah, _)` the viewport is width-limited when
/// `s.0/aw < s.1/ah` (then the full width is used), and height-limited
/// otherwise; an exact tie resolves to the height-limited branch.
pub open spec fn spec_effective_size(sc: Scope, s: (Q, Q)) -> (Q, Q) {
    match sc {
        Scope::Whole => s,
        Scope::AspectRatio(aw, ah, _) => {
            if q_lt(q_div(s.0, aw@), q_div(s.1, ah@)) {
                (s.0, q_div(q_mul(ah@, s.0), aw@))
            } else {
                (q_div(q_mul(aw@, s.1), ah@), s.1)
            }
        },
    }
}

/// All intermediate values of the effective-size computation stay
/// representable in 64-bit fractions.
pub open spec fn spec_effective_size_fits(sc: Scope, s: (Q, Q)) -> bool {
    match sc {
        Scope::Whole => true,
        Scope::AspectRatio(aw, ah, _) => {
            &&& q_fits(q_div(s.0, aw@))
            &&& q_fits(q_div(s.1, ah@))
            &&& if q_lt(q_div(s.0, aw@), q_div(s.1, ah@)) {
                q_fits(q_mul(ah@, s.0)) && q_fits(q_div(q_mul(ah@, s.0), aw@))
            } else {
                q_fits(q_mul(aw@, s.1)) && q_fits(q_div(q_mul(aw@, s.1), ah@))
            }
        },
    }
}

/// The translation that repositions the scaled effective area inside the
/// viewport, in the centered output frame (positive y is up). `Center`
/// leaves the area centered; `Top`, `Bottom`, `Left` and `Right` push it
/// against that viewport edge, moving all the leftover margin to the
/// opposite side; the other axis stays centered.
pub open spec fn spec_anchor_offset(sc: Scope, s: (Q, Q)) -> (Q, Q) {
    match sc {
        Scope::Whole => (q_int(0), q_int(0)),
        Scope::AspectRatio(_, _, dir) => {
            let e = spec_effective_size(sc, s);
            match dir {
                Direction::Center => (q_int(0), q_int(0)),
                Direction::Top => (q_int(0), q_mul(q_sub(s.1, e.1), q_half())),
                Direction::Bottom => (q_int(0), q_neg(q_mul(q_sub(s.1, e.1), q_half()))),
                Direction::Left => (q_neg(q_mul(q_sub(s.0, e.0), q_half())), q_int(0)),
                Direction::Right => (q_mul(q_sub(s.0, e.0), q_half()), q_int(0)),
            }
        },
    }
}

/// The anchor offset as a pure translation matrix.
pub open spec fn spec_offset_matrix(sc: Scope, s: (Q, Q)) -> QAffine {
    (QAffine {
        sx: q_int(1),
        tx: spec_anchor_offset(sc, s).0,
        sy: q_int(1),
        ty: spec_anchor_offset(sc, s).1,
    })
}

/// All intermediate values of the anchor-offset computation stay
/// representable in 64-bit fractions.
pub open spec fn spec_offset_fits(sc: Scope, s: (Q, Q)) -> bool {
    match sc {
        Scope::Whole => true,
        Scope::AspectRatio(_, _, dir) => {
            let e = spec_effective_size(sc, s);
            match dir {
                Direction::Center => true,
                Direction::Top => spec_effective_size_fits(sc, s) && q_fits(q_sub(s.1, e.1))
                    && q_fits(q_mul(q_sub(s.1, e.1), q_half())),
                Direction::Bottom => spec_effective_size_fits(sc, s) && q_fits(q_sub(s.1, e.1))
                    && q_fits(q_mul(q_sub(s.1, e.1), q_half())) && q_fits(
                    q_neg(q_mul(q_sub(s.1, e.1), q_half())),
                ),
                Direction::Left => spec_effective_size_fits(sc, s) && q_fits(q_sub(s.0, e.0))
                    && q_fits(q_mul(q_sub(s.0, e.0), q_half())) && q_fits(
                    q_neg(q_mul(q_sub(s.0, e.0), q_half())),
                ),
                Direction::Right => spec_effective_size_fits(sc, s) && q_fits(q_sub(s.0, e.0))
                    && q_fits(q_mul(q_sub(s.0, e.0), q_half())),
            }
        },
    }
}

/// For a valid scope and viewport the effective size is well-formed and
/// strictly positive on both axes.
pub proof fn lemma_effective_size_valid(sc: Scope, s: (Q, Q))
    requires
        sc.wf(),
        spec_size_valid(s),
    ensures
        spec_size_valid(spec_effective_size(sc, s)),
{
    match sc {
        Scope::Whole => {},
        Scope::AspectRatio(aw, ah, _) => {
            if q_lt(q_div(s.0, aw@), q_div(s.1, ah@)) {
                lemma_q_mul_pos(ah@, s.0);
                lemma_q_div_pos(q_mul(ah@, s.0), aw@);
            } else {
                lemma_q_mul_pos(aw@, s.1);
                lemma_q_div_pos(q_mul(aw@, s.1), ah@);
            }
        },
    }
}

/// Aspect-ratio containment: the effective size fits inside the viewport
/// on both axes, and its sides are in the requested ratio exactly
/// (`ew * ah == eh * aw` as rational numbers).
pub proof fn lemma_aspect_ratio_containment(aw: Rat, ah: Rat, dir: Direction, s: (Q, Q))
    requires
        Scope::AspectRatio(aw, ah, dir).wf(),
        spec_size_valid(s),
    ensures
        q_le(spec_effective_size(Scope::AspectRatio(aw, ah, dir), s).0, s.0),
        q_le(spec_effective_size(Scope::AspectRatio(aw, ah, dir), s).1, s.1),
        q_eq(
            q_mul(spec_effective_size(Scope::AspectRatio(aw, ah, dir), s).0, ah@),
            q_mul(spec_effective_size(Scope::AspectRatio(aw, ah, dir), s).1, aw@),
        ),
{
    let sc = Scope::AspectRatio(aw, ah, dir);
    let e = spec_effective_size(sc, s);
    lemma_effective_size_valid(sc, s);
    if q_lt(q_div(s.0, aw@), q_div(s.1, ah@)) {
        // Width-limited: the full width is used and the height is scaled
        // down, so only the vertical containment needs the branch test.
        lemma_q_div_le_scale(s.0, aw@, s.1, ah@);
        // e.1 * aw == (ah * s.0), and e.0 * ah == s.0 * ah == ah * s.0.
        lemma_q_mul_wf(ah@, s.0);
        lemma_q_div_mul_cancel(q_mul(ah@, s.0), aw@);
        lemma_q_mul_comm(s.0, ah@);
        lemma_q_mul_wf(s.0, ah@);
        lemma_q_mul_wf(e.1, aw@);
        lemma_q_eq_trans(q_mul(s.0, ah@), q_mul(ah@, s.0), q_mul(e.1, aw@));
    } else {
        lemma_q_div_le_scale(s.1, ah@, s.0, aw@);
        lemma_q_mul_wf(aw@, s.1);
        lemma_q_div_mul_cancel(q_mul(aw@, s.1), ah@);
        lemma_q_mul_comm(s.1, aw@);
        lemma_q_mul_wf(s.1, aw@);
        lemma_q_mul_wf(e.0, ah@);
        lemma_q_eq_trans(q_mul(e.0, ah@), q_mul(aw@, s.1), q_mul(s.1, aw@));
    }
}

/// The whole-viewport scope changes nothing: its effective rendering size
/// is the viewport itself, exactly.
pub proof fn lemma_whole_scope_identity(s: (Q, Q))
    ensures
        spec_effective_size(Scope::Whole, s) == s,
        spec_anchor_offset(Scope::Whole, s) == (q_int(0), q_int(0)),
{
}

impl Scope {
    /// An aspect-ratio scope carries strictly positive aspect parameters.
    pub open spec fn wf(self) -> bool {
        match self {
            Scope::Whole => true,
            Scope::AspectRatio(aw, ah, _) => aw.wf() && ah.wf() && q_lt(q_int(0), aw@) && q_lt(
                q_int(0),
                ah@,
            ),
        }
    }

    /// Builds an aspect-ratio scope, rejecting non-positive aspect
    /// parameters with `InvalidConfiguration`.
    pub fn aspect_ratio(aspect_width: Rat, aspect_height: Rat, anchor: Direction) -> (r: Result<
        Scope,
        TransformError,
    >)
        requires
            aspect_width.wf(),
            aspect_height.wf(),
        ensures
            r matches Ok(sc) ==> sc == Scope::AspectRatio(aspect_width, aspect_height, anchor)
                && sc.wf(),
            r is Ok <==> q_lt(q_int(0), aspect_width@) && q_lt(q_int(0), aspect_height@),
            r matches Err(e) ==> e == TransformError::InvalidConfiguration,
    {
        if aspect_width.num > 0 && aspect_height.num > 0 {
            Ok(Scope::AspectRatio(aspect_width, aspect_height, anchor))
        } else {
            Err(TransformError::InvalidConfiguration)
        }
    }

    /// Whether this is the whole-viewport scope.
    pub fn is_whole(&self) -> (r: bool)
        ensures
            r == (*self is Whole),
    {
        matches!(self, Scope::Whole)
    }

    /// Whether this is an aspect-ratio scope.
    pub fn is_aspect_ratio(&self) -> (r: bool)
        ensures
            r == (*self is AspectRatio),
    {
        matches!(self, Scope::AspectRatio(_, _, _))
    }

    /// The effective rendering size for the viewport `size` (see
    /// [`spec_effective_size`]): the whole viewport, or the largest area
    /// of the configured aspect ratio that fits inside it.
    pub fn effective_rendering_size(&self, size: &(Rat, Rat)) -> (r: Result<
        (Rat, Rat),
        TransformError,
    >)
        requires
            self.wf(),
            size.0.wf(),
            size.1.wf(),
        ensures
            r matches Ok(v) ==> v.0@ == spec_effective_size(*self, (size.0@, size.1@)).0 && v.1@
                == spec_effective_size(*self, (size.0@, size.1@)).1 && v.0.wf() && v.1.wf(),
            (r matches Err(e) && e == TransformError::InvalidViewport) <==> !spec_size_valid(
                (size.0@, size.1@),
            ),
            spec_size_valid((size.0@, size.1@)) ==> (r is Ok <==> spec_effective_size_fits(
                *self,
                (size.0@, size.1@),
            )),
            r matches Err(e) ==> e == TransformError::InvalidViewport
                || e == TransformError::Overflow,
    {
        if size.0.num <= 0 || size.1.num <= 0 {
            return Err(TransformError::InvalidViewport);
        }
        match *self {
            Scope::Whole => Ok((size.0, size.1)),
            Scope::AspectRatio(aw, ah, _) => {
                let q1 = match size.0.checked_div(aw) {
                    Some(v) => v,
                    None => {
                        return Err(TransformError::Overflow);
                    },
                };
                let q2 = match size.1.checked_div(ah) {
                    Some(v) => v,
                    None => {
                        return Err(TransformError::Overflow);
                    },
                };
                if q1.lt(q2) {
                    let p = match ah.checked_mul(size.0) {
                        Some(v) => v,
                        None => {
                            return Err(TransformError::Overflow);
                        },
                    };
                    let eh = match p.checked_div(aw) {
                        Some(v) => v,
                        None => {
                            return Err(TransformError::Overflow);
                        },
                    };
                    Ok((size.0, eh))
                } else {
                    let p = match aw.checked_mul(size.1) {
                        Some(v) => v,
                        None => {
                            return Err(TransformError::Overflow);
                        },
                    };
                    let ew = match p.checked_div(ah) {
                        Some(v) => v,
                        None => {
                            return Err(TransformError::Overflow);
                        },
                    };
                    Ok((ew, size.1))
                }
            },
        }
    }

    /// The translation matrix that anchors the scaled effective area
    /// inside the viewport (see [`spec_anchor_offset`]); identity for the
    /// whole-viewport scope and for a centered anchor.
    pub fn effective_unit_offset_matrix(&self, size: &(Rat, Rat)) -> (r: Result<
        AffineMatrix,
        TransformError,
    >)
        requires
            self.wf(),
            size.0.wf(),
            size.1.wf(),
        ensures
            r matches Ok(m) ==> m@ == spec_offset_matrix(*self, (size.0@, size.1@)) && m.wf(),
            (r matches Err(e) && e == TransformError::InvalidViewport) <==> !spec_size_valid(
                (size.0@, size.1@),
            ),
            spec_size_valid((size.0@, size.1@)) ==> (r is Ok <==> spec_offset_fits(
                *self,
                (size.0@, size.1@),
            )),
            r matches Err(e) ==> e == TransformError::InvalidViewport
                || e == TransformError::Overflow,
    {
        if size.0.num <= 0 || size.1.num <= 0 {
            return Err(TransformError::InvalidViewport);
        }
        match *self {
            Scope::Whole => Ok(AffineMatrix::identity()),
            Scope::AspectRatio(_, _, dir) => {
                if matches!(dir, Direction::Center) {
                    return Ok(AffineMatrix::identity());
                }
                let e = match self.effective_rendering_size(size) {
                    Ok(v) => v,
                    Err(err) => {
                        return Err(err);
                    },
                };
                match dir {
                    Direction::Center => Ok(AffineMatrix::identity()),
                    Direction::Top => {
                        let m = match size.1.checked_sub(e.1) {
                            Some(v) => v,
                            None => {
                                return Err(TransformError::Overflow);
                            },
                        };
                        let off = match m.checked_mul(Rat::half()) {
                            Some(v) => v,
                            None => {
                                return Err(TransformError::Overflow);
                            },
                        };
                        Ok(AffineMatrix::new(Rat::one(), Rat::zero(), Rat::one(), off))
                    },
                    Direction::Bottom => {
                        let m = match size.1.checked_sub(e.1) {
                            Some(v) => v,
                            None => {
                                return Err(TransformError::Overflow);
                            },
                        };
                        let halved = match m.checked_mul(Rat::half()) {
                            Some(v) => v,
                            None => {
                                return Err(TransformError::Overflow);
                            },
                        };
                        let off = match halved.checked_neg() {
                            Some(v) => v,
                            None => {
                                return Err(TransformError::Overflow);
                            },
                        };
                        Ok(AffineMatrix::new(Rat::one(), Rat::zero(), Rat::one(), off))
                    },
                    Direction::Left => {
                        let m = match size.0.checked_sub(e.0) {
                            Some(v) => v,
                            None => {
                                return Err(TransformError::Overflow);
                            },
                        };
                        let halved = match m.checked_mul(Rat::half()) {
                            Some(v) => v,
                            None => {
                                return Err(TransformError::Overflow);
                            },
                        };
                        let off = match halved.checked_neg() {
                            Some(v) => v,
                            None => {
                                return Err(TransformError::Overflow);
                            },
                        };
                        Ok(AffineMatrix::new(Rat::one(), off, Rat::one(), Rat::zero()))
                    },
                    Direction::Right => {
                        let m = match size.0.checked_sub(e.0) {
                            Some(v) => v,
                            None => {
                                return Err(TransformError::Overflow);
                            },
                        };
                        let off = match m.checked_mul(Rat::half()) {
                            Some(v) => v,
                            None => {
                                return Err(TransformError::Overflow);
                            },
                        };
                        Ok(AffineMatrix::new(Rat::one(), off, Rat::one(), Rat::zero()))
                    },
                }
            },
        }
    }
}

/// The offset matrix is well-formed, and it is a pure translation: its
/// diagonal entries are exactly one.
pub proof fn lemma_offset_matrix_wf(sc: Scope, s: (Q, Q))
    requires
        sc.wf(),
        spec_size_valid(s),
    ensures
        qa_wf(spec_offset_matrix(sc, s)),
        spec_offset_matrix(sc, s).sx == q_int(1),
        spec_offset_matrix(sc, s).sy == q_int(1),
{
    match sc {
        Scope::Whole => {},
        Scope::AspectRatio(_, _, dir) => {
            let e = spec_effective_size(sc, s);
            lemma_effective_size_valid(sc, s);
            match dir {
                Direction::Center => {},
                Direction::Top => {
                    lemma_q_add_wf(s.1, q_neg(e.1));
                    lemma_q_mul_wf(q_sub(s.1, e.1), q_half());
                },
                Direction::Bottom => {
                    lemma_q_add_wf(s.1, q_neg(e.1));
                    lemma_q_mul_wf(q_sub(s.1, e.1), q_half());
                },
                Direction::Left => {
                    lemma_q_add_wf(s.0, q_neg(e.0));
                    lemma_q_mul_wf(q_sub(s.0, e.0), q_half());
                },
                Direction::Right => {
                    lemma_q_add_wf(s.0, q_neg(e.0));
                    lemma_q_mul_wf(q_sub(s.0, e.0), q_half());
                },
            }
        },
    }
}

} // verus!
