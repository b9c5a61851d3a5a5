//! Unit-level checks: the configuration builder, the corner solver, the
//! fixed-point trigonometry and the decimal renderers.

use figma_squircle::FigmaSquircleParams;
use figma_squircle::draw::{CornerParams, get_path_params_for_corner};
use figma_squircle::trig::{sin_fx, cos_fx, tan_fx, deg2rad};
use figma_squircle::text::{append_uint, append_fixed4, append_coord};
use figma_squircle::fixed::{muldiv, div_trunc};

#[test]
fn default_configuration() {
    let p = FigmaSquircleParams::default();
    assert_eq!(p.width, 0);
    assert_eq!(p.height, 0);
    assert!(p.corner_radius.is_none());
    assert!(p.top_left_corner_radius.is_none());
    assert!(p.top_right_corner_radius.is_none());
    assert!(p.bottom_left_corner_radius.is_none());
    assert!(p.bottom_right_corner_radius.is_none());
    assert_eq!(p.corner_smoothing, 10000);
    assert!(!p.preserve_smoothing);
}

#[test]
fn builder_sets_fields() {
    let p = FigmaSquircleParams::default()
        .width(10000)
        .height(20000)
        .corner_radius(5000)
        .top_left_corner_radius(1000)
        .top_right_corner_radius(2000)
        .bottom_left_corner_radius(3000)
        .bottom_right_corner_radius(4000)
        .corner_smoothing(6000)
        .preserve_smoothing(true);
    assert_eq!(p.width, 10000);
    assert_eq!(p.height, 20000);
    assert_eq!(p.corner_radius, Some(5000));
    assert_eq!(p.top_left_corner_radius, Some(1000));
    assert_eq!(p.top_right_corner_radius, Some(2000));
    assert_eq!(p.bottom_left_corner_radius, Some(3000));
    assert_eq!(p.bottom_right_corner_radius, Some(4000));
    assert_eq!(p.corner_smoothing, 6000);
    assert!(p.preserve_smoothing);
    let q = p.size(70000);
    assert_eq!(q.width, 70000);
    assert_eq!(q.height, 70000);
}

#[test]
fn solver_without_smoothing_gives_pure_arc() {
    // Radius 20, no smoothing: the whole turn is the circular arc; its
    // chord projection is the radius up to fixed-point residue.
    let r = get_path_params_for_corner(CornerParams {
        corner_radius: 200000,
        corner_smoothing: 0,
        preserve_smoothing: false,
        rounding_and_smoothing_budget: 500000,
    });
    assert_eq!(r.p, 200000);
    assert_eq!(r.corner_radius, 200000);
    assert_eq!(r.arc_section_length, 199996);
    assert_eq!(r.c, 0);
    assert_eq!(r.d, 0);
    assert_eq!(r.b, 1);
    assert_eq!(r.a, 2);
}

#[test]
fn solver_is_deterministic() {
    let make = || get_path_params_for_corner(CornerParams {
        corner_radius: 200000,
        corner_smoothing: 6000,
        preserve_smoothing: false,
        rounding_and_smoothing_budget: 500000,
    });
    assert_eq!(make(), make());
}

#[test]
fn solver_preserve_mode_compresses_control_points() {
    // Radius equals the budget with full smoothing preserved: the arc
    // vanishes and the control offsets are fitted into the budget.
    let r = get_path_params_for_corner(CornerParams {
        corner_radius: 250000,
        corner_smoothing: 10000,
        preserve_smoothing: true,
        rounding_and_smoothing_budget: 250000,
    });
    assert_eq!(r.p, 250000);
    assert_eq!(r.arc_section_length, 0);
    assert_eq!(r.c, 73220);
    assert_eq!(r.d, 73220);
    assert_eq!(r.b, 86300);
    assert_eq!(r.a, 17260);
}

#[test]
fn solver_zero_radius_is_all_zero() {
    let r = get_path_params_for_corner(CornerParams {
        corner_radius: 0,
        corner_smoothing: 10000,
        preserve_smoothing: false,
        rounding_and_smoothing_budget: 500000,
    });
    assert_eq!((r.a, r.b, r.c, r.d, r.p, r.arc_section_length), (0, 0, 0, 0, 0, 0));
    assert_eq!(r.corner_radius, 0);
}

#[test]
fn trig_values_at_bounds() {
    assert_eq!(deg2rad(450000), 7854);
    assert_eq!(sin_fx(7854), 7071);
    assert_eq!(cos_fx(7854), 7071);
    assert_eq!(tan_fx(7854), 10000);
    assert_eq!(sin_fx(0), 0);
    assert_eq!(cos_fx(0), 10000);
    assert_eq!(tan_fx(0), 0);
}

#[test]
fn fixed_point_helpers() {
    assert_eq!(muldiv(15000, 20000, 10000), 30000);
    assert_eq!(muldiv(500000, 1000000, 600000), 833333);
    assert_eq!(div_trunc(7, 3), 2);
    assert_eq!(div_trunc(-7, 3), -2);
    assert_eq!(div_trunc(0, 3), 0);
}

#[test]
fn four_decimal_rendering() {
    let mut s = String::new();
    append_fixed4(&mut s, 199996);
    assert_eq!(s, "19.9996");
    let mut s = String::new();
    append_fixed4(&mut s, -2);
    assert_eq!(s, "-0.0002");
    let mut s = String::new();
    append_fixed4(&mut s, 0);
    assert_eq!(s, "0.0000");
    let mut s = String::new();
    append_fixed4(&mut s, 123456789);
    assert_eq!(s, "12345.6789");
}

#[test]
fn shortest_coordinate_rendering() {
    let cases: [(i64, &str); 6] = [
        (800000, "80"),
        (12340, "1.234"),
        (10, "0.001"),
        (7, "0.0007"),
        (1000005, "100.0005"),
        (0, "0"),
    ];
    for (v, expected) in cases {
        let mut s = String::new();
        append_coord(&mut s, v);
        assert_eq!(s, expected);
    }
}

#[test]
fn plain_digit_rendering() {
    let mut s = String::new();
    append_uint(&mut s, 0);
    assert_eq!(s, "0");
    let mut s = String::new();
    append_uint(&mut s, 907);
    assert_eq!(s, "907");
}
