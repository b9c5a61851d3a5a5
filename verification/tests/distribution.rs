//! Distributor behavior: proportional splits, remainders, conservation.

use figma_squircle::distribute::{RoundedRectangle, distribute_and_normalize};

fn rect(tl: i64, tr: i64, bl: i64, br: i64, w: i64, h: i64) -> RoundedRectangle {
    RoundedRectangle {
        top_left_corner_radius: tl,
        top_right_corner_radius: tr,
        bottom_left_corner_radius: bl,
        bottom_right_corner_radius: br,
        width: w,
        height: h,
    }
}

#[test]
fn equal_radii_split_every_side_in_half() {
    let nm = distribute_and_normalize(rect(200000, 200000, 200000, 200000, 1000000, 1000000));
    for c in [nm.top_left, nm.top_right, nm.bottom_left, nm.bottom_right] {
        assert_eq!(c.rounding_and_smoothing_budget, 500000);
        assert_eq!(c.radius, 200000);
    }
}

#[test]
fn larger_radius_claims_proportional_share_first() {
    // Top-left 50 against three corners of 10 on a 100 by 100 square:
    // top-left is served first and takes 50/(50+10) of each of its sides.
    let nm = distribute_and_normalize(rect(500000, 100000, 100000, 100000, 1000000, 1000000));
    assert_eq!(nm.top_left.rounding_and_smoothing_budget, 833333);
    assert_eq!(nm.top_left.radius, 500000);
    assert_eq!(nm.top_right.rounding_and_smoothing_budget, 166667);
    assert_eq!(nm.top_right.radius, 100000);
    assert_eq!(nm.bottom_left.rounding_and_smoothing_budget, 166667);
    assert_eq!(nm.bottom_left.radius, 100000);
    assert_eq!(nm.bottom_right.rounding_and_smoothing_budget, 833333);
    assert_eq!(nm.bottom_right.radius, 100000);
    // Conservation: the two budgets on each side fit the side.
    assert!(nm.top_left.rounding_and_smoothing_budget
        + nm.top_right.rounding_and_smoothing_budget <= 1000000);
    assert!(nm.bottom_left.rounding_and_smoothing_budget
        + nm.bottom_right.rounding_and_smoothing_budget <= 1000000);
    assert!(nm.top_left.rounding_and_smoothing_budget
        + nm.bottom_left.rounding_and_smoothing_budget <= 1000000);
    assert!(nm.top_right.rounding_and_smoothing_budget
        + nm.bottom_right.rounding_and_smoothing_budget <= 1000000);
}

#[test]
fn all_zero_radii_get_zero_budgets_for_their_shares() {
    let nm = distribute_and_normalize(rect(0, 0, 0, 0, 1000000, 500000));
    for c in [nm.top_left, nm.top_right, nm.bottom_left, nm.bottom_right] {
        assert_eq!(c.radius, 0);
        assert_eq!(c.rounding_and_smoothing_budget, 0);
    }
}

#[test]
fn zero_radius_beside_nonzero_neighbor_is_safe() {
    // The zero/zero short circuit only fires when both radii on the side
    // are zero; a single zero radius takes the zero share of the split.
    let nm = distribute_and_normalize(rect(0, 400000, 400000, 400000, 1000000, 1000000));
    assert_eq!(nm.top_left.radius, 0);
    assert_eq!(nm.top_left.rounding_and_smoothing_budget, 500000);
    assert_eq!(nm.top_right.radius, 400000);
    assert_eq!(nm.top_right.rounding_and_smoothing_budget, 500000);
    assert_eq!(nm.bottom_left.radius, 400000);
    assert_eq!(nm.bottom_left.rounding_and_smoothing_budget, 500000);
    assert_eq!(nm.bottom_right.radius, 400000);
    assert_eq!(nm.bottom_right.rounding_and_smoothing_budget, 500000);
}

#[test]
fn budget_clamps_radius() {
    // Two 80-radii side by side on a 100-wide rectangle: each corner's
    // budget is half the width, and the radius is clamped to it.
    let nm = distribute_and_normalize(rect(800000, 800000, 0, 0, 1000000, 1000000));
    assert_eq!(nm.top_left.rounding_and_smoothing_budget, 500000);
    assert_eq!(nm.top_left.radius, 500000);
    assert!(nm.top_right.radius <= nm.top_right.rounding_and_smoothing_budget);
}
