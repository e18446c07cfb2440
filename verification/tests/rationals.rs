use coordmap::Rat;

#[test]
fn new_keeps_fraction() {
    let r = Rat::new(3, 4);
    assert_eq!(r.num, 3);
    assert_eq!(r.den, 4);
}

#[test]
fn same_value_sees_equivalent_fractions() {
    assert!(Rat::new(1, 2).same_value(Rat::new(2, 4)));
    assert!(Rat::new(-3, 6).same_value(Rat::new(-1, 2)));
    assert!(!Rat::new(1, 2).same_value(Rat::new(1, 3)));
}

#[test]
fn add_is_exact() {
    // 1/2 + 1/3 == 5/6, kept unreduced over the common denominator.
    let s = Rat::new(1, 2).checked_add(Rat::new(1, 3)).unwrap();
    assert_eq!(s.num, 5);
    assert_eq!(s.den, 6);
}

#[test]
fn sub_is_exact() {
    let d = Rat::new(1, 2).checked_sub(Rat::new(1, 3)).unwrap();
    assert!(d.same_value(Rat::new(1, 6)));
}

#[test]
fn mul_is_exact() {
    let p = Rat::new(2, 3).checked_mul(Rat::new(3, 4)).unwrap();
    assert!(p.same_value(Rat::new(1, 2)));
}

#[test]
fn div_is_exact() {
    let q = Rat::new(2, 3).checked_div(Rat::new(4, 9)).unwrap();
    assert!(q.same_value(Rat::new(3, 2)));
}

#[test]
fn div_by_zero_fails() {
    assert!(Rat::new(1, 2).checked_div(Rat::zero()).is_none());
    assert!(Rat::zero().checked_inv().is_none());
}

#[test]
fn neg_flips_sign() {
    let n = Rat::new(7, 3).checked_neg().unwrap();
    assert!(n.same_value(Rat::new(-7, 3)));
}

#[test]
fn inv_keeps_positive_denominator() {
    let i = Rat::new(-2, 5).checked_inv().unwrap();
    assert_eq!(i.num, -5);
    assert_eq!(i.den, 2);
    assert!(i.same_value(Rat::new(-5, 2)));
}

#[test]
fn add_overflow_is_reported() {
    assert!(Rat::new(i64::MAX, 1).checked_add(Rat::new(1, 1)).is_none());
}

#[test]
fn mul_overflow_is_reported() {
    assert!(Rat::new(i64::MAX, 1).checked_mul(Rat::new(2, 1)).is_none());
}

#[test]
fn comparisons_are_exact() {
    assert!(Rat::new(1, 3).lt(Rat::new(1, 2)));
    assert!(!Rat::new(1, 2).lt(Rat::new(1, 2)));
    assert!(Rat::new(1, 2).le(Rat::new(1, 2)));
    assert!(Rat::new(2, 4).le(Rat::new(1, 2)));
    assert!(!Rat::new(2, 3).le(Rat::new(1, 2)));
}
