use coordmap::affine::AffineMatrix;
use coordmap::{
    CoordinateSystem, Direction, Origin, Rat, Scale, ScaleScope, Scope, TransformError,
    UnitLength,
};

fn rat(n: i64, d: i64) -> Rat {
    Rat::new(n, d)
}

fn size(w: i64, h: i64) -> (Rat, Rat) {
    (Rat::from_int(w), Rat::from_int(h))
}

fn aspect(aw: i64, ah: i64, anchor: Direction) -> Scope {
    Scope::aspect_ratio(Rat::from_int(aw), Rat::from_int(ah), anchor).unwrap()
}

#[test]
fn whole_scope_returns_viewport() {
    let e = Scope::Whole.effective_rendering_size(&size(123, 456)).unwrap();
    assert!(e.0.same_value(rat(123, 1)));
    assert!(e.1.same_value(rat(456, 1)));
}

#[test]
fn aspect_ratio_exact_match_keeps_viewport() {
    // 4:3 already matches 800:600, so the whole viewport is effective.
    let sc = aspect(4, 3, Direction::Center);
    let e = sc.effective_rendering_size(&size(800, 600)).unwrap();
    assert!(e.0.same_value(rat(800, 1)));
    assert!(e.1.same_value(rat(600, 1)));
}

#[test]
fn aspect_ratio_wide_viewport_limits_width() {
    // A 1000x600 viewport holds at most an 800x600 area of ratio 4:3.
    let sc = aspect(4, 3, Direction::Center);
    let e = sc.effective_rendering_size(&size(1000, 600)).unwrap();
    assert!(e.0.same_value(rat(800, 1)));
    assert!(e.1.same_value(rat(600, 1)));
}

#[test]
fn aspect_ratio_tall_viewport_limits_height() {
    // An 800x900 viewport holds at most an 800x600 area of ratio 4:3.
    let sc = aspect(4, 3, Direction::Center);
    let e = sc.effective_rendering_size(&size(800, 900)).unwrap();
    assert!(e.0.same_value(rat(800, 1)));
    assert!(e.1.same_value(rat(600, 1)));
}

#[test]
fn aspect_ratio_containment_fractional() {
    // 16:9 inside 640x640: effective 640x360, both inside the viewport
    // and exactly in ratio.
    let sc = aspect(16, 9, Direction::Center);
    let e = sc.effective_rendering_size(&size(640, 640)).unwrap();
    assert!(e.0.same_value(rat(640, 1)));
    assert!(e.1.same_value(rat(360, 1)));
    let lhs = e.0.checked_mul(rat(9, 1)).unwrap();
    let rhs = e.1.checked_mul(rat(16, 1)).unwrap();
    assert!(lhs.same_value(rhs));
}

#[test]
fn top_left_corner_maps_to_center_convention() {
    // The top-left corner (0,0) lands at (-1/2, +1/2) in the shared
    // center convention.
    let m = Origin::TopLeft.to_center_matrix();
    let p = m.apply((Rat::zero(), Rat::zero())).unwrap();
    assert!(p.0.same_value(rat(-1, 2)));
    assert!(p.1.same_value(rat(1, 2)));
}

#[test]
fn center_origin_matrices_are_identity() {
    let m = Origin::Center.to_center_matrix();
    assert_eq!(m, AffineMatrix::identity());
    let m = Origin::Center.from_center_matrix();
    assert_eq!(m, AffineMatrix::identity());
}

#[test]
fn origin_matrices_are_mutually_inverse() {
    let origins = vec![
        Origin::Center,
        Origin::TopLeft,
        Origin::TopRight,
        Origin::BottomLeft,
        Origin::BottomRight,
    ];
    for o in origins {
        let prod = o.to_center_matrix().compose(o.from_center_matrix()).unwrap();
        assert!(prod.sx.same_value(Rat::one()));
        assert!(prod.tx.same_value(Rat::zero()));
        assert!(prod.sy.same_value(Rat::one()));
        assert!(prod.ty.same_value(Rat::zero()));
        let prod = o.from_center_matrix().compose(o.to_center_matrix()).unwrap();
        assert!(prod.sx.same_value(Rat::one()));
        assert!(prod.tx.same_value(Rat::zero()));
        assert!(prod.sy.same_value(Rat::one()));
        assert!(prod.ty.same_value(Rat::zero()));
    }
}

#[test]
fn square_scale_modes_agree_on_square_viewport() {
    let e = (rat(500, 1), rat(500, 1));
    let w = Scale::Square(UnitLength::Width).output_matrix(&e);
    let h = Scale::Square(UnitLength::Height).output_matrix(&e);
    let mx = Scale::Square(UnitLength::MaxSide).output_matrix(&e);
    let mn = Scale::Square(UnitLength::MinSide).output_matrix(&e);
    for m in [h, mx, mn] {
        assert!(m.sx.same_value(w.sx));
        assert!(m.sy.same_value(w.sy));
        assert!(m.tx.same_value(w.tx));
        assert!(m.ty.same_value(w.ty));
    }
}

#[test]
fn unit_length_selection() {
    let e = (rat(300, 1), rat(200, 1));
    assert!(Scale::Square(UnitLength::Width).output_matrix(&e).sx.same_value(rat(300, 1)));
    assert!(Scale::Square(UnitLength::Height).output_matrix(&e).sx.same_value(rat(200, 1)));
    assert!(Scale::Square(UnitLength::MaxSide).output_matrix(&e).sx.same_value(rat(300, 1)));
    assert!(Scale::Square(UnitLength::MinSide).output_matrix(&e).sx.same_value(rat(200, 1)));
    let m = Scale::Scale.output_matrix(&e);
    assert!(m.sx.same_value(rat(300, 1)));
    assert!(m.sy.same_value(rat(200, 1)));
}

#[test]
fn centered_anchor_leaves_no_offset() {
    let sc = aspect(4, 3, Direction::Center);
    let m = sc.effective_unit_offset_matrix(&size(1000, 600)).unwrap();
    assert_eq!(m, AffineMatrix::identity());
}

#[test]
fn right_anchor_pushes_margin_left() {
    // 1000x600 at 4:3 leaves a 200 wide margin; anchored right, the
    // area's center moves +100 (half the margin each side when centered).
    let sc = aspect(4, 3, Direction::Right);
    let m = sc.effective_unit_offset_matrix(&size(1000, 600)).unwrap();
    assert!(m.tx.same_value(rat(100, 1)));
    assert!(m.ty.same_value(Rat::zero()));
}

#[test]
fn left_anchor_pushes_margin_right() {
    let sc = aspect(4, 3, Direction::Left);
    let m = sc.effective_unit_offset_matrix(&size(1000, 600)).unwrap();
    assert!(m.tx.same_value(rat(-100, 1)));
    assert!(m.ty.same_value(Rat::zero()));
}

#[test]
fn top_anchor_moves_area_up() {
    // 800x900 at 4:3 leaves a 300 high margin; anchored top, the area's
    // center moves up by 150 in the centered frame (positive y is up).
    let sc = aspect(4, 3, Direction::Top);
    let m = sc.effective_unit_offset_matrix(&size(800, 900)).unwrap();
    assert!(m.tx.same_value(Rat::zero()));
    assert!(m.ty.same_value(rat(150, 1)));
}

#[test]
fn bottom_anchor_moves_area_down() {
    let sc = aspect(4, 3, Direction::Bottom);
    let m = sc.effective_unit_offset_matrix(&size(800, 900)).unwrap();
    assert!(m.tx.same_value(Rat::zero()));
    assert!(m.ty.same_value(rat(-150, 1)));
}

#[test]
fn io_matrix_concrete_composition() {
    // Whole scope, anisotropic scale, top-left input, centered output on
    // a 100x50 viewport: x' = 50x - 50, y' = -25y + 25.
    let cs = CoordinateSystem {
        scale_scope: ScaleScope { scale: Scale::Scale, scope: Scope::Whole },
        input_origin: Origin::TopLeft,
        output_origin: Origin::Center,
    };
    let m = cs.io_transform_matrix(&size(100, 50)).unwrap();
    assert!(m.sx.same_value(rat(50, 1)));
    assert!(m.tx.same_value(rat(-50, 1)));
    assert!(m.sy.same_value(rat(-25, 1)));
    assert!(m.ty.same_value(rat(25, 1)));
}

#[test]
fn into_output_concrete_corners() {
    let cs = CoordinateSystem {
        scale_scope: ScaleScope { scale: Scale::Scale, scope: Scope::Whole },
        input_origin: Origin::TopLeft,
        output_origin: Origin::Center,
    };
    let s = size(100, 50);
    let p = cs.into_output_coordinates((Rat::zero(), Rat::zero()), &s).unwrap();
    assert!(p.0.same_value(rat(-50, 1)));
    assert!(p.1.same_value(rat(25, 1)));
    let p = cs.into_output_coordinates((rat(2, 1), rat(2, 1)), &s).unwrap();
    assert!(p.0.same_value(rat(50, 1)));
    assert!(p.1.same_value(rat(-25, 1)));
}

#[test]
fn into_input_concrete() {
    let cs = CoordinateSystem {
        scale_scope: ScaleScope { scale: Scale::Scale, scope: Scope::Whole },
        input_origin: Origin::TopLeft,
        output_origin: Origin::Center,
    };
    let s = size(100, 50);
    let p = cs.into_input_coordinates((rat(-50, 1), rat(25, 1)), &s).unwrap();
    assert!(p.0.same_value(Rat::zero()));
    assert!(p.1.same_value(Rat::zero()));
}

#[test]
fn round_trip_is_exact() {
    let cs = CoordinateSystem {
        scale_scope: ScaleScope {
            scale: Scale::Square(UnitLength::Width),
            scope: aspect(4, 3, Direction::Top),
        },
        input_origin: Origin::TopLeft,
        output_origin: Origin::BottomRight,
    };
    let s = size(1000, 600);
    let p = (rat(1, 3), rat(5, 7));
    let out = cs.into_output_coordinates(p, &s).unwrap();
    let back = cs.into_input_coordinates(out, &s).unwrap();
    assert!(back.0.same_value(p.0));
    assert!(back.1.same_value(p.1));
}

#[test]
fn round_trip_many_configurations() {
    let scales = vec![
        Scale::Scale,
        Scale::Square(UnitLength::Width),
        Scale::Square(UnitLength::Height),
        Scale::Square(UnitLength::MaxSide),
        Scale::Square(UnitLength::MinSide),
    ];
    let origins = vec![
        Origin::Center,
        Origin::TopLeft,
        Origin::TopRight,
        Origin::BottomLeft,
        Origin::BottomRight,
    ];
    let anchors = vec![
        Direction::Center,
        Direction::Top,
        Direction::Bottom,
        Direction::Left,
        Direction::Right,
    ];
    let s = size(640, 480);
    let p = (rat(3, 5), rat(-7, 11));
    for scale in &scales {
        for io in &origins {
            for oo in &origins {
                for anchor in &anchors {
                    let cs = CoordinateSystem {
                        scale_scope: ScaleScope {
                            scale: *scale,
                            scope: aspect(16, 9, *anchor),
                        },
                        input_origin: *io,
                        output_origin: *oo,
                    };
                    let out = cs.into_output_coordinates(p, &s).unwrap();
                    let back = cs.into_input_coordinates(out, &s).unwrap();
                    assert!(back.0.same_value(p.0));
                    assert!(back.1.same_value(p.1));
                }
            }
        }
    }
}

#[test]
fn non_positive_aspect_is_invalid_configuration() {
    let r = Scope::aspect_ratio(Rat::zero(), rat(3, 1), Direction::Center);
    assert_eq!(r.unwrap_err(), TransformError::InvalidConfiguration);
    let r = Scope::aspect_ratio(rat(4, 1), rat(-3, 1), Direction::Center);
    assert_eq!(r.unwrap_err(), TransformError::InvalidConfiguration);
}

#[test]
fn non_positive_viewport_is_invalid() {
    let sc = aspect(4, 3, Direction::Center);
    let r = sc.effective_rendering_size(&size(0, 600));
    assert_eq!(r.unwrap_err(), TransformError::InvalidViewport);
    let cs = CoordinateSystem {
        scale_scope: ScaleScope { scale: Scale::Scale, scope: Scope::Whole },
        input_origin: Origin::Center,
        output_origin: Origin::Center,
    };
    let r = cs.into_output_coordinates((Rat::zero(), Rat::zero()), &size(-5, 600));
    assert_eq!(r.unwrap_err(), TransformError::InvalidViewport);
    let r = cs.into_input_coordinates((Rat::zero(), Rat::zero()), &size(100, 0));
    assert_eq!(r.unwrap_err(), TransformError::InvalidViewport);
}

#[test]
fn extreme_values_overflow() {
    // An aspect parameter of 1/i64::MAX forces the width/aspect quotient
    // out of the 64-bit fraction range.
    let sc = Scope::aspect_ratio(Rat::new(1, i64::MAX), rat(3, 1), Direction::Center).unwrap();
    let r = sc.effective_rendering_size(&(rat(2, 1), rat(5, 1)));
    assert_eq!(r.unwrap_err(), TransformError::Overflow);
}

#[test]
fn direction_predicates() {
    assert!(Direction::Center.is_center());
    assert!(Direction::Top.is_top());
    assert!(Direction::Bottom.is_bottom());
    assert!(Direction::Left.is_left());
    assert!(Direction::Right.is_right());
    assert!(!Direction::Top.is_center());
}

#[test]
fn unit_length_predicates() {
    assert!(UnitLength::Width.is_width());
    assert!(UnitLength::Height.is_height());
    assert!(UnitLength::MaxSide.is_max_side());
    assert!(UnitLength::MinSide.is_min_side());
    assert!(!UnitLength::Width.is_height());
}

#[test]
fn origin_predicates() {
    assert!(Origin::Center.is_center());
    assert!(Origin::TopLeft.is_top_left());
    assert!(Origin::TopRight.is_top_right());
    assert!(Origin::BottomLeft.is_bottom_left());
    assert!(Origin::BottomRight.is_bottom_right());
    assert!(!Origin::TopLeft.is_center());
}

#[test]
fn origin_flip_table() {
    assert!(!Origin::Center.will_flip_x());
    assert!(!Origin::Center.will_flip_y());
    assert!(!Origin::TopLeft.will_flip_x());
    assert!(Origin::TopLeft.will_flip_y());
    assert!(Origin::TopRight.will_flip_x());
    assert!(Origin::TopRight.will_flip_y());
    assert!(!Origin::BottomLeft.will_flip_x());
    assert!(!Origin::BottomLeft.will_flip_y());
    assert!(Origin::BottomRight.will_flip_x());
    assert!(!Origin::BottomRight.will_flip_y());
}

#[test]
fn scope_predicates() {
    assert!(Scope::Whole.is_whole());
    assert!(!Scope::Whole.is_aspect_ratio());
    let sc = aspect(4, 3, Direction::Center);
    assert!(sc.is_aspect_ratio());
    assert!(!sc.is_whole());
}

#[test]
fn scale_predicates() {
    assert!(Scale::Square(UnitLength::Width).is_square());
    assert!(!Scale::Square(UnitLength::Width).is_scale());
    assert!(Scale::Scale.is_scale());
    assert!(!Scale::Scale.is_square());
}

#[test]
fn scale_scope_output_matrix_uses_effective_size() {
    // 1000x600 at 4:3 gives an effective 800x600; Square(MinSide) then
    // scales both axes by 600.
    let ss = ScaleScope {
        scale: Scale::Square(UnitLength::MinSide),
        scope: aspect(4, 3, Direction::Center),
    };
    let m = ss.output_matrix(&size(1000, 600)).unwrap();
    assert!(m.sx.same_value(rat(600, 1)));
    assert!(m.sy.same_value(rat(600, 1)));
    assert!(m.tx.same_value(Rat::zero()));
    assert!(m.ty.same_value(Rat::zero()));
}
