use vstd::prelude::*;

verus! {

/// A mathematical rational number, kept as an (unreduced) fraction of
/// unbounded integers. `Q` is the specification-level model of the
/// executable [`Rat`] type; all contracts in this crate are stated over it.
pub struct Q {
    pub n: int,
    pub d: int,
}

/// A well-formed fraction keeps its denominator strictly positive.
pub open spec fn q_wf(q: Q) -> bool {
    q.d > 0
}

/// Two fractions denote the same rational number (cross multiplication).
pub open spec fn q_eq(a: Q, b: Q) -> bool {
    a.n * b.d == b.n * a.d
}

/// `a < b` as rational numbers; meaningful when both are well-formed.
pub open spec fn q_lt(a: Q, b: Q) -> bool {
    a.n * b.d < b.n * a.d
}

/// `a <= b` as rational numbers; meaningful when both are well-formed.
pub open spec fn q_le(a: Q, b: Q) -> bool {
    a.n * b.d <= b.n * a.d
}

/// Exact sum of two fractions.
pub open spec fn q_add(a: Q, b: Q) -> Q {
    (Q { n: a.n * b.d + b.n * a.d, d: a.d * b.d })
}

/// Exact product of two fractions.
pub open spec fn q_mul(a: Q, b: Q) -> Q {
    (Q { n: a.n * b.n, d: a.d * b.d })
}

/// Exact negation of a fraction.
pub open spec fn q_neg(a: Q) -> Q {
    (Q { n: -a.n, d: a.d })
}

/// Exact difference of two fractions.
pub open spec fn q_sub(a: Q, b: Q) -> Q {
    q_add(a, q_neg(b))
}

/// Reciprocal, with the sign moved into the numerator so that the result
/// stays well-formed whenever `a.n != 0`.
pub open spec fn q_inv(a: Q) -> Q {
    if a.n >= 0 {
        (Q { n: a.d, d: a.n })
    } else {
        (Q { n: -a.d, d: -a.n })
    }
}

/// Exact quotient of two fractions.
pub open spec fn q_div(a: Q, b: Q) -> Q {
    q_mul(a, q_inv(b))
}

/// The integer `n` as a fraction.
pub open spec fn q_int(n: int) -> Q {
    (Q { n: n, d: 1 })
}

/// Both components of the fraction fit the machine representation used by
/// [`Rat`]: a signed 64-bit numerator and a positive 64-bit denominator.
pub open spec fn q_fits(q: Q) -> bool {
    &&& -0x8000_0000_0000_0000 <= q.n <= 0x7FFF_FFFF_FFFF_FFFF
    &&& 0 < q.d <= 0x7FFF_FFFF_FFFF_FFFF
}

/// An exact rational number with 64-bit numerator and denominator.
///
/// The fraction is not reduced; equality of values is rational equivalence
/// (see [`Rat::same_value`]), not structural equality of the two fields.
#[derive(Clone, Copy, Debug, PartialEq, Eq, Hash, Structural)]
pub struct Rat {
    pub num: i64,
    pub den: i64,
}

impl View for Rat {
    type V = Q;

    open spec fn view(&self) -> Q {
        (Q { n: self.num as int, d: self.den as int })
    }
}

/// The product of a signed 64-bit value and a nonnegative 64-bit value
/// stays well inside the 128-bit range.
proof fn lemma_i64_prod_in_i128(a: int, b: int)
    by (nonlinear_arith)
    requires
        -0x8000_0000_0000_0000 <= a <= 0x7FFF_FFFF_FFFF_FFFF,
        -0x8000_0000_0000_0000 <= b <= 0x7FFF_FFFF_FFFF_FFFF,
    ensures
        -0x4000_0000_0000_0000_0000_0000_0000_0000 <= a * b
            <= 0x4000_0000_0000_0000_0000_0000_0000_0000,
{
}

/// The product of a signed 64-bit value and a *positive* 64-bit value is
/// bounded away from the 128-bit limits far enough that two such products
/// can be added without overflow.
proof fn lemma_i64_pos_prod_in_i128(a: int, b: int)
    by (nonlinear_arith)
    requires
        -0x8000_0000_0000_0000 <= a <= 0x7FFF_FFFF_FFFF_FFFF,
        1 <= b <= 0x7FFF_FFFF_FFFF_FFFF,
    ensures
        -0x3FFF_FFFF_FFFF_FFFF_8000_0000_0000_0000 <= a * b
            <= 0x3FFF_FFFF_FFFF_FFFF_8000_0000_0000_0000,
{
}

/// The product of two positive values is positive.
proof fn lemma_pos_prod(a: int, b: int)
    by (nonlinear_arith)
    requires
        a > 0,
        b > 0,
    ensures
        a * b > 0,
{
}

/// Well-formedness is preserved by addition.
pub proof fn lemma_q_add_wf(a: Q, b: Q)
    requires
        q_wf(a),
        q_wf(b),
    ensures
        q_wf(q_add(a, b)),
{
    lemma_pos_prod(a.d, b.d);
}

/// Well-formedness is preserved by multiplication.
pub proof fn lemma_q_mul_wf(a: Q, b: Q)
    requires
        q_wf(a),
        q_wf(b),
    ensures
        q_wf(q_mul(a, b)),
{
    lemma_pos_prod(a.d, b.d);
}

/// The reciprocal of a nonzero fraction is well-formed.
pub proof fn lemma_q_inv_wf(a: Q)
    requires
        q_wf(a),
        a.n != 0,
    ensures
        q_wf(q_inv(a)),
{
}

/// A product is zero only when a factor is zero.
pub proof fn lemma_q_mul_nonzero(a: Q, b: Q)
    by (nonlinear_arith)
    requires
        a.n != 0,
        b.n != 0,
    ensures
        q_mul(a, b).n != 0,
{
}

/// Rational equality is transitive (on well-formed fractions).
pub proof fn lemma_q_eq_trans(a: Q, b: Q, c: Q)
    by (nonlinear_arith)
    requires
        q_wf(a),
        q_wf(b),
        q_wf(c),
        q_eq(a, b),
        q_eq(b, c),
    ensures
        q_eq(a, c),
{
    assert(b.d * (a.n * c.d - c.n * a.d) == c.d * (a.n * b.d - b.n * a.d) + a.d * (b.n * c.d
        - c.n * b.d));
}

/// Polynomial form of the addition congruence, on raw components.
proof fn lemma_add_congruence_ints(
    a1n: int,
    a1d: int,
    a2n: int,
    a2d: int,
    b1n: int,
    b1d: int,
    b2n: int,
    b2d: int,
)
    requires
        a1n * a2d == a2n * a1d,
        b1n * b2d == b2n * b1d,
    ensures
        (a1n * b1d + b1n * a1d) * (a2d * b2d) == (a2n * b2d + b2n * a2d) * (a1d * b1d),
{
    vstd::arithmetic::mul::lemma_mul_is_distributive_add_other_way(
        a2d * b2d,
        a1n * b1d,
        b1n * a1d,
    );
    vstd::arithmetic::mul::lemma_mul_is_distributive_add_other_way(
        a1d * b1d,
        a2n * b2d,
        b2n * a2d,
    );
    assert((a1n * b1d) * (a2d * b2d) == (a1n * a2d) * (b1d * b2d)) by (nonlinear_arith);
    assert((a1n * a2d) * (b1d * b2d) == (a2n * a1d) * (b1d * b2d)) by (nonlinear_arith)
        requires
            a1n * a2d == a2n * a1d,
    ;
    assert((a2n * a1d) * (b1d * b2d) == (a2n * b2d) * (a1d * b1d)) by (nonlinear_arith);
    assert((b1n * a1d) * (a2d * b2d) == (b1n * b2d) * (a1d * a2d)) by (nonlinear_arith);
    assert((b1n * b2d) * (a1d * a2d) == (b2n * b1d) * (a1d * a2d)) by (nonlinear_arith)
        requires
            b1n * b2d == b2n * b1d,
    ;
    assert((b2n * b1d) * (a1d * a2d) == (b2n * a2d) * (a1d * b1d)) by (nonlinear_arith);
}

/// Rational equality is a congruence for addition.
pub proof fn lemma_q_add_congruence(a1: Q, a2: Q, b1: Q, b2: Q)
    requires
        q_wf(a1),
        q_wf(a2),
        q_wf(b1),
        q_wf(b2),
        q_eq(a1, a2),
        q_eq(b1, b2),
    ensures
        q_eq(q_add(a1, b1), q_add(a2, b2)),
{
    lemma_add_congruence_ints(a1.n, a1.d, a2.n, a2.d, b1.n, b1.d, b2.n, b2.d);
}

/// Multiplication of fractions is commutative (structurally).
pub proof fn lemma_q_mul_comm(a: Q, b: Q)
    by (nonlinear_arith)
    ensures
        q_mul(a, b) == q_mul(b, a),
{
}

/// Polynomial form of distributivity, on raw components.
proof fn lemma_dist_ints(an: int, ad: int, bn: int, bd: int, cn: int, cd: int)
    ensures
        (an * (bn * cd + cn * bd)) * ((ad * bd) * (ad * cd)) == ((an * bn) * (ad * cd) + (an
            * cn) * (ad * bd)) * (ad * (bd * cd)),
{
    vstd::arithmetic::mul::lemma_mul_is_distributive_add(an, bn * cd, cn * bd);
    vstd::arithmetic::mul::lemma_mul_is_distributive_add_other_way(
        (ad * bd) * (ad * cd),
        an * (bn * cd),
        an * (cn * bd),
    );
    vstd::arithmetic::mul::lemma_mul_is_distributive_add_other_way(
        ad * (bd * cd),
        (an * bn) * (ad * cd),
        (an * cn) * (ad * bd),
    );
    assert((an * (bn * cd)) * ((ad * bd) * (ad * cd)) == ((an * bn) * (ad * cd)) * (ad * (bd
        * cd))) by (nonlinear_arith);
    assert((an * (cn * bd)) * ((ad * bd) * (ad * cd)) == ((an * cn) * (ad * bd)) * (ad * (bd
        * cd))) by (nonlinear_arith);
}

/// Multiplication distributes over addition, up to rational equality.
pub proof fn lemma_q_mul_dist(a: Q, b: Q, c: Q)
    requires
        q_wf(a),
        q_wf(b),
        q_wf(c),
    ensures
        q_eq(q_mul(a, q_add(b, c)), q_add(q_mul(a, b), q_mul(a, c))),
{
    lemma_dist_ints(a.n, a.d, b.n, b.d, c.n, c.d);
}

/// Multiplying by a fraction and then by its reciprocal gives the value back.
pub proof fn lemma_q_mul_inv_cancel(s: Q, x: Q)
    by (nonlinear_arith)
    requires
        q_wf(s),
        q_wf(x),
        s.n != 0,
    ensures
        q_eq(q_mul(q_inv(s), q_mul(s, x)), x),
{
}

/// Polynomial form of the add-then-subtract cancellation, on raw components.
proof fn lemma_add_neg_ints(an: int, ad: int, bn: int, bd: int, cn: int, cd: int)
    requires
        bn * cd == cn * bd,
    ensures
        ((an * bd + bn * ad) * cd + (-cn) * (ad * bd)) * ad == an * ((ad * bd) * cd),
{
    vstd::arithmetic::mul::lemma_mul_is_distributive_add_other_way(cd, an * bd, bn * ad);
    vstd::arithmetic::mul::lemma_mul_is_distributive_add_other_way(
        ad,
        (an * bd) * cd + (bn * ad) * cd,
        (-cn) * (ad * bd),
    );
    vstd::arithmetic::mul::lemma_mul_is_distributive_add_other_way(ad, (an * bd) * cd, (bn * ad)
        * cd);
    assert(((an * bd) * cd) * ad == an * ((ad * bd) * cd)) by (nonlinear_arith);
    assert(((bn * ad) * cd) * ad == (bn * cd) * (ad * ad)) by (nonlinear_arith);
    assert(((-cn) * (ad * bd)) * ad == -((cn * bd) * (ad * ad))) by (nonlinear_arith);
    assert((bn * cd) * (ad * ad) == (cn * bd) * (ad * ad)) by (nonlinear_arith)
        requires
            bn * cd == cn * bd,
    ;
}

/// Adding a value and then subtracting an equal one gives the start back.
pub proof fn lemma_q_add_neg_cancel(a: Q, b: Q, c: Q)
    requires
        q_wf(a),
        q_wf(b),
        q_wf(c),
        q_eq(b, c),
    ensures
        q_eq(q_add(q_add(a, b), q_neg(c)), a),
{
    lemma_add_neg_ints(a.n, a.d, b.n, b.d, c.n, c.d);
}

/// One half, as a fraction.
pub open spec fn q_half() -> Q {
    (Q { n: 1, d: 2 })
}

/// Positivity is preserved by multiplication.
pub proof fn lemma_q_mul_pos(a: Q, b: Q)
    requires
        q_wf(a),
        q_wf(b),
        q_lt(q_int(0), a),
        q_lt(q_int(0), b),
    ensures
        q_wf(q_mul(a, b)),
        q_lt(q_int(0), q_mul(a, b)),
{
    lemma_pos_prod(a.n, b.n);
    lemma_pos_prod(a.d, b.d);
}

/// The reciprocal of a positive fraction is positive.
pub proof fn lemma_q_inv_pos(a: Q)
    requires
        q_wf(a),
        q_lt(q_int(0), a),
    ensures
        q_wf(q_inv(a)),
        q_lt(q_int(0), q_inv(a)),
{
}

/// The quotient of two positive fractions is positive.
pub proof fn lemma_q_div_pos(a: Q, b: Q)
    requires
        q_wf(a),
        q_wf(b),
        q_lt(q_int(0), a),
        q_lt(q_int(0), b),
    ensures
        q_wf(q_div(a, b)),
        q_lt(q_int(0), q_div(a, b)),
{
    lemma_q_inv_pos(b);
    lemma_q_mul_pos(a, q_inv(b));
}

/// Dividing by a nonzero fraction and multiplying back gives the start.
pub proof fn lemma_q_div_mul_cancel(u: Q, b: Q)
    requires
        q_wf(u),
        q_wf(b),
        b.n != 0,
    ensures
        q_eq(q_mul(q_div(u, b), b), u),
{
    if b.n > 0 {
        assert(((u.n * b.d) * b.n) * u.d == u.n * ((u.d * b.n) * b.d)) by (nonlinear_arith);
    } else {
        assert(((u.n * -b.d) * b.n) * u.d == u.n * ((u.d * -b.n) * b.d)) by (nonlinear_arith);
    }
}

/// Clearing one denominator from a bound between two quotients: from
/// `a/b <= c/d` it follows that `(d*a)/b <= c`.
pub proof fn lemma_q_div_le_scale(a: Q, b: Q, c: Q, d: Q)
    requires
        q_wf(a),
        q_wf(b),
        q_wf(c),
        q_wf(d),
        b.n > 0,
        d.n > 0,
        q_le(q_div(a, b), q_div(c, d)),
    ensures
        q_le(q_div(q_mul(d, a), b), c),
{
    assert(((d.n * a.n) * b.d) * c.d == (a.n * b.d) * (c.d * d.n)) by (nonlinear_arith);
    assert(c.n * ((d.d * a.d) * b.n) == (c.n * d.d) * (a.d * b.n)) by (nonlinear_arith);
}

impl Rat {
    /// The denominator is strictly positive.
    pub open spec fn wf(self) -> bool {
        self.den > 0
    }

    /// Builds the fraction `num / den`.
    pub fn new(num: i64, den: i64) -> (r: Rat)
        requires
            den > 0,
        ensures
            r@ == (Q { n: num as int, d: den as int }),
            r.wf(),
    {
        Rat { num, den }
    }

    /// The integer `num` as a rational.
    pub fn from_int(num: i64) -> (r: Rat)
        ensures
            r@ == q_int(num as int),
            r.wf(),
    {
        Rat { num, den: 1 }
    }

    /// Zero.
    pub fn zero() -> (r: Rat)
        ensures
            r@ == q_int(0),
            r.wf(),
    {
        Rat { num: 0, den: 1 }
    }

    /// One.
    pub fn one() -> (r: Rat)
        ensures
            r@ == q_int(1),
            r.wf(),
    {
        Rat { num: 1, den: 1 }
    }

    /// One half.
    pub fn half() -> (r: Rat)
        ensures
            r@ == q_half(),
            r.wf(),
    {
        Rat { num: 1, den: 2 }
    }

    /// Exact sum; `None` exactly when the unreduced result leaves the
    /// 64-bit range.
    pub fn checked_add(self, other: Rat) -> (r: Option<Rat>)
        requires
            self.wf(),
            other.wf(),
        ensures
            r matches Some(v) ==> v@ == q_add(self@, other@) && v.wf(),
            r is Some <==> q_fits(q_add(self@, other@)),
    {
        proof {
            lemma_i64_pos_prod_in_i128(self.num as int, other.den as int);
            lemma_i64_pos_prod_in_i128(other.num as int, self.den as int);
            lemma_i64_prod_in_i128(self.den as int, other.den as int);
            lemma_pos_prod(self.den as int, other.den as int);
        }
        let n: i128 = (self.num as i128) * (other.den as i128) + (other.num as i128) * (self.den
            as i128);
        let d: i128 = (self.den as i128) * (other.den as i128);
        if n >= i64::MIN as i128 && n <= i64::MAX as i128 && d <= i64::MAX as i128 {
            Some(Rat { num: n as i64, den: d as i64 })
        } else {
            None
        }
    }

    /// Exact difference; `None` exactly when the unreduced result leaves
    /// the 64-bit range.
    pub fn checked_sub(self, other: Rat) -> (r: Option<Rat>)
        requires
            self.wf(),
            other.wf(),
        ensures
            r matches Some(v) ==> v@ == q_sub(self@, other@) && v.wf(),
            r is Some <==> q_fits(q_sub(self@, other@)),
    {
        proof {
            lemma_i64_pos_prod_in_i128(self.num as int, other.den as int);
            lemma_i64_pos_prod_in_i128(other.num as int, self.den as int);
            lemma_i64_prod_in_i128(self.den as int, other.den as int);
            lemma_pos_prod(self.den as int, other.den as int);
            assert((-(other.num as int)) * (self.den as int) == -((other.num as int) * (self.den
                as int))) by (nonlinear_arith);
        }
        let n: i128 = (self.num as i128) * (other.den as i128) - (other.num as i128) * (self.den
            as i128);
        let d: i128 = (self.den as i128) * (other.den as i128);
        if n >= i64::MIN as i128 && n <= i64::MAX as i128 && d <= i64::MAX as i128 {
            Some(Rat { num: n as i64, den: d as i64 })
        } else {
            None
        }
    }

    /// Exact product; `None` exactly when the unreduced result leaves the
    /// 64-bit range.
    pub fn checked_mul(self, other: Rat) -> (r: Option<Rat>)
        requires
            self.wf(),
            other.wf(),
        ensures
            r matches Some(v) ==> v@ == q_mul(self@, other@) && v.wf(),
            r is Some <==> q_fits(q_mul(self@, other@)),
    {
        proof {
            lemma_i64_prod_in_i128(self.num as int, other.num as int);
            lemma_i64_prod_in_i128(self.den as int, other.den as int);
            lemma_pos_prod(self.den as int, other.den as int);
        }
        let n: i128 = (self.num as i128) * (other.num as i128);
        let d: i128 = (self.den as i128) * (other.den as i128);
        if n >= i64::MIN as i128 && n <= i64::MAX as i128 && d <= i64::MAX as i128 {
            Some(Rat { num: n as i64, den: d as i64 })
        } else {
            None
        }
    }

    /// Exact negation; `None` only for the one unrepresentable numerator.
    pub fn checked_neg(self) -> (r: Option<Rat>)
        requires
            self.wf(),
        ensures
            r matches Some(v) ==> v@ == q_neg(self@) && v.wf(),
            r is Some <==> q_fits(q_neg(self@)),
    {
        if self.num == i64::MIN {
            None
        } else {
            Some(Rat { num: -self.num, den: self.den })
        }
    }

    /// Exact reciprocal; `None` when the value is zero (no reciprocal) or
    /// its numerator is the one unrepresentable value.
    pub fn checked_inv(self) -> (r: Option<Rat>)
        requires
            self.wf(),
        ensures
            r matches Some(v) ==> v@ == q_inv(self@) && v.wf(),
            r is Some <==> q_fits(q_inv(self@)),
    {
        if self.num > 0 {
            Some(Rat { num: self.den, den: self.num })
        } else if self.num == 0 || self.num == i64::MIN {
            None
        } else {
            Some(Rat { num: -self.den, den: -self.num })
        }
    }

    /// Exact quotient; `None` when the divisor is zero or a result
    /// component leaves the 64-bit range.
    pub fn checked_div(self, other: Rat) -> (r: Option<Rat>)
        requires
            self.wf(),
            other.wf(),
        ensures
            r matches Some(v) ==> v@ == q_div(self@, other@) && v.wf(),
            r is Some <==> q_fits(q_inv(other@)) && q_fits(q_div(self@, other@)),
    {
        match other.checked_inv() {
            None => None,
            Some(inv) => self.checked_mul(inv),
        }
    }

    /// Exact comparison `self < other`.
    pub fn lt(self, other: Rat) -> (r: bool)
        requires
            self.wf(),
            other.wf(),
        ensures
            r == q_lt(self@, other@),
    {
        proof {
            lemma_i64_prod_in_i128(self.num as int, other.den as int);
            lemma_i64_prod_in_i128(other.num as int, self.den as int);
        }
        (self.num as i128) * (other.den as i128) < (other.num as i128) * (self.den as i128)
    }

    /// Exact comparison `self <= other`.
    pub fn le(self, other: Rat) -> (r: bool)
        requires
            self.wf(),
            other.wf(),
        ensures
            r == q_le(self@, other@),
    {
        proof {
            lemma_i64_prod_in_i128(self.num as int, other.den as int);
            lemma_i64_prod_in_i128(other.num as int, self.den as int);
        }
        (self.num as i128) * (other.den as i128) <= (other.num as i128) * (self.den as i128)
    }

    /// Exact equality of the denoted rational numbers; two different
    /// fractions of the same value compare equal here.
    pub fn same_value(self, other: Rat) -> (r: bool)
        requires
            self.wf(),
            other.wf(),
        ensures
            r == q_eq(self@, other@),
    {
        proof {
            lemma_i64_prod_in_i128(self.num as int, other.den as int);
            lemma_i64_prod_in_i128(other.num as int, self.den as int);
        }
        (self.num as i128) * (other.den as i128) == (other.num as i128) * (self.den as i128)
    }
}

} // verus!
