//! End-to-end path generation scenarios. Scalars are fixed-point
//! ten-thousandths: 1000000 is a length of 100.

use figma_squircle::{FigmaSquircleParams, get_svg_path};

fn base() -> FigmaSquircleParams {
    FigmaSquircleParams::default()
}

#[test]
fn uniform_square_no_smoothing() {
    let params = base().width(1000000).height(1000000).corner_radius(200000).corner_smoothing(0);
    let path = get_svg_path(params);
    assert!(path.starts_with("M 80 0 "));
    assert_eq!(
        path,
        "M 80 0 c 0.0002 0 0.0003 0 0.0003 0.0000 a 20.0000 20.0000 0 0 1 19.9996 19.9996 \
         c 0.0000 0.0000 0.0000 0.0001 0.0000 0.0003 L 100 80 c 0 0.0002 0 0.0003 0.0000 0.0003 \
         a 20.0000 20.0000 0 0 1 -19.9996 19.9996 c 0.0000 0.0000 -0.0001 0.0000 -0.0003 0.0000 \
         L 20 100 c -0.0002 0 -0.0003 0 -0.0003 0.0000 a 20.0000 20.0000 0 0 1 -19.9996 -19.9996 \
         c 0.0000 0.0000 0.0000 -0.0001 0.0000 -0.0003 L 0 20 c 0 -0.0002 0 -0.0003 0.0000 -0.0003 \
         a 20.0000 20.0000 0 0 1 19.9996 -19.9996 c 0.0000 0.0000 0.0001 0.0000 0.0003 0.0000 Z"
    );
}

#[test]
fn uniform_radius_clamped_to_half_height() {
    // The requested radius 40 exceeds min(width, height) / 2 = 25, so the
    // fast path clamps it, and the default budget limiting clamps p too.
    let params = base().width(1000000).height(500000).corner_radius(400000).corner_smoothing(10000);
    let path = get_svg_path(params);
    assert!(path.starts_with("M 75 0 "));
    assert!(path.contains("a 25.0000 25.0000 0 0 1"));
    assert_eq!(
        path,
        "M 75 0 c 0.0002 0 0.0003 0 0.0003 0.0000 a 25.0000 25.0000 0 0 1 24.9995 24.9995 \
         c 0.0000 0.0000 0.0000 0.0001 0.0000 0.0003 L 100 25 c 0 0.0002 0 0.0003 0.0000 0.0003 \
         a 25.0000 25.0000 0 0 1 -24.9995 24.9995 c 0.0000 0.0000 -0.0001 0.0000 -0.0003 0.0000 \
         L 25 50 c -0.0002 0 -0.0003 0 -0.0003 0.0000 a 25.0000 25.0000 0 0 1 -24.9995 -24.9995 \
         c 0.0000 0.0000 0.0000 -0.0001 0.0000 -0.0003 L 0 25 c 0 -0.0002 0 -0.0003 0.0000 -0.0003 \
         a 25.0000 25.0000 0 0 1 24.9995 -24.9995 c 0.0000 0.0000 0.0001 0.0000 0.0003 0.0000 Z"
    );
}

#[test]
fn non_uniform_large_top_left() {
    let params = base()
        .width(1000000)
        .height(1000000)
        .top_left_corner_radius(500000)
        .top_right_corner_radius(100000)
        .bottom_left_corner_radius(100000)
        .bottom_right_corner_radius(100000)
        .corner_smoothing(6000);
    let path = get_svg_path(params);
    // The top-left corner claims the larger proportional share: its curve
    // (drawn last, before Z) uses the full 50-unit radius.
    assert!(path.contains("a 50.0000 50.0000 0 0 1"));
    assert_eq!(
        path,
        "M 84 0 c 5.6008 0 8.4012 0 10.5404 1.0897 a 10.0000 10.0000 0 0 1 4.3698 4.3698 \
         c 1.0897 2.1392 1.0897 4.9396 1.0897 10.5404 L 100 84 c 0 5.6008 0 8.4012 -1.0897 10.5404 \
         a 10.0000 10.0000 0 0 1 -4.3698 4.3698 c -2.1392 1.0897 -4.9396 1.0897 -10.5404 1.0897 \
         L 16 100 c -5.6008 0 -8.4012 0 -10.5404 -1.0897 a 10.0000 10.0000 0 0 1 -4.3698 -4.3698 \
         c -1.0897 -2.1392 -1.0897 -4.9396 -1.0897 -10.5404 L 0 80 c 0 -28.0036 0 -42.0054 \
         5.4487 -52.7018 a 50.0000 50.0000 0 0 1 21.8493 -21.8493 c 10.6964 -5.4487 \
         24.6982 -5.4487 52.7018 -5.4487 Z"
    );
}

#[test]
fn all_radii_zero_gives_plain_rectangle() {
    let params = base().width(1000000).height(1000000).corner_radius(0).corner_smoothing(0);
    let path = get_svg_path(params);
    assert_eq!(path, "M 100 0  L 100 100  L 0 100  L 0 0  Z");
}

#[test]
fn zero_radius_ignores_smoothing_settings() {
    // A sharp corner emits no curve commands whatever the smoothing or
    // the conflict strategy.
    let plain = "M 100 0  L 100 100  L 0 100  L 0 0  Z";
    let a = base().width(1000000).height(1000000).corner_radius(0).corner_smoothing(10000);
    assert_eq!(get_svg_path(a), plain);
    let b = base()
        .width(1000000)
        .height(1000000)
        .corner_radius(0)
        .corner_smoothing(10000)
        .preserve_smoothing(true);
    assert_eq!(get_svg_path(b), plain);
}

#[test]
fn smoothing_has_no_effect_once_budget_saturated() {
    // Radius 40 on a 100 by 100 square: the uniform budget is 25, so the
    // requested extent saturates it for any smoothing; raising the
    // smoothing changes nothing.
    let p1 = base().width(1000000).height(1000000).corner_radius(400000).corner_smoothing(5000);
    let p2 = base().width(1000000).height(1000000).corner_radius(400000).corner_smoothing(9000);
    assert_eq!(get_svg_path(p1), get_svg_path(p2));
}

#[test]
fn smoothing_still_matters_below_saturation() {
    let p1 = base().width(1000000).height(1000000).corner_radius(100000).corner_smoothing(5000);
    let p2 = base().width(1000000).height(1000000).corner_radius(100000).corner_smoothing(9000);
    assert_ne!(get_svg_path(p1), get_svg_path(p2));
}

#[test]
fn identical_configurations_give_identical_strings() {
    let make = || base().width(1000000).height(500000).corner_radius(130000).corner_smoothing(7000);
    assert_eq!(get_svg_path(make()), get_svg_path(make()));
}

#[test]
fn square_uniform_corners_are_symmetric() {
    // All four corners of a square with equal radii are drawn with the
    // same arc command.
    let params = base().width(1000000).height(1000000).corner_radius(200000).corner_smoothing(0);
    let path = get_svg_path(params);
    assert_eq!(path.matches("a 20.0000 20.0000 0 0 1").count(), 4);
}

#[test]
fn degenerate_rectangle_collapses() {
    let params = base().width(0).height(0).corner_radius(200000).corner_smoothing(5000);
    assert_eq!(get_svg_path(params), "M 0 0  L 0 0  L 0 0  L 0 0  Z");
}

#[test]
fn largest_accepted_size() {
    let params = base()
        .size(100_000_000_000)
        .corner_radius(100_000_000_000)
        .corner_smoothing(10000);
    let path = get_svg_path(params);
    assert!(path.starts_with("M 5000000 0 "));
    assert!(path.ends_with(" Z"));
}

#[test]
fn preserve_smoothing_keeps_arc_at_zero() {
    // Full smoothing with preserve on: the arc degenerates (radius kept,
    // control points compressed to the budget).
    let params = base()
        .width(1000000)
        .height(1000000)
        .corner_radius(400000)
        .corner_smoothing(10000)
        .preserve_smoothing(true);
    let path = get_svg_path(params);
    assert!(path.starts_with("M 50 0 "));
    assert!(path.contains("a 40.0000 40.0000 0 0 1 0.0000 0.0000"));
}
