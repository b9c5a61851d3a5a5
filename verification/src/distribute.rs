//! Budget distribution.
//!
//! Each corner may occupy a stretch of both sides next to it. When two
//! large radii compete for one side, the corner with the larger radius is
//! served first and claims a proportional share; the neighbor then gets
//! what remains. [`distribute_and_normalize`] computes, per corner, that
//! budget and the radius clamped to it. The central guarantee, proved in
//! [`lemma_dist_model_conserves`], is that the two budgets on any side
//! never sum to more than the side's length.

use vstd::prelude::*;
use crate::fixed::{muldiv, lemma_muldiv_bound, FX_MAX};

verus! {

/// One of the rectangle's four corners.
#[derive(PartialEq, Eq, Structural, Clone, Copy, Debug)]
pub enum Corner {
    TopLeft,
    TopRight,
    BottomLeft,
    BottomRight,
}

/// One of the rectangle's four sides.
#[derive(PartialEq, Eq, Structural, Clone, Copy, Debug)]
pub enum Side {
    Top,
    Left,
    Bottom,
    Right,
}

/// The distributor's input: four requested radii and the dimensions.
pub struct RoundedRectangle {
    pub top_left_corner_radius: i64,
    pub top_right_corner_radius: i64,
    pub bottom_right_corner_radius: i64,
    pub bottom_left_corner_radius: i64,
    pub width: i64,
    pub height: i64,
}

/// One corner's clamped radius and side budget.
#[derive(PartialEq, Eq, Structural, Clone, Copy, Debug)]
pub struct NormalizedCorner {
    pub radius: i64,
    pub rounding_and_smoothing_budget: i64,
}

/// The distributor's result for all four corners.
#[derive(PartialEq, Eq, Structural, Clone, Copy, Debug)]
pub struct NormalizedCorners {
    pub top_left: NormalizedCorner,
    pub top_right: NormalizedCorner,
    pub bottom_left: NormalizedCorner,
    pub bottom_right: NormalizedCorner,
}

/// Mathematical model of one normalized corner.
pub struct CornerModel {
    pub radius: int,
    pub rounding_and_smoothing_budget: int,
}

/// Mathematical model of the distributor's result.
pub struct CornersModel {
    pub top_left: CornerModel,
    pub top_right: CornerModel,
    pub bottom_left: CornerModel,
    pub bottom_right: CornerModel,
}

impl View for NormalizedCorner {
    type V = CornerModel;

    open spec fn view(&self) -> CornerModel {
        CornerModel {
            radius: self.radius as int,
            rounding_and_smoothing_budget: self.rounding_and_smoothing_budget as int,
        }
    }
}

impl View for NormalizedCorners {
    type V = CornersModel;

    open spec fn view(&self) -> CornersModel {
        CornersModel {
            top_left: self.top_left@,
            top_right: self.top_right@,
            bottom_left: self.bottom_left@,
            bottom_right: self.bottom_right@,
        }
    }
}

/// The two corners adjacent to a corner, each with the shared side.
pub open spec fn adjacents(c: Corner) -> ((Corner, Side), (Corner, Side)) {
    match c {
        Corner::TopLeft => ((Corner::TopRight, Side::Top), (Corner::BottomLeft, Side::Left)),
        Corner::TopRight => ((Corner::TopLeft, Side::Top), (Corner::BottomRight, Side::Right)),
        Corner::BottomLeft => ((Corner::BottomRight, Side::Bottom), (Corner::TopLeft, Side::Left)),
        Corner::BottomRight => ((Corner::BottomLeft, Side::Bottom), (Corner::TopRight, Side::Right)),
    }
}

/// The length that governs a side: the width for the horizontal sides,
/// the height for the vertical ones.
pub open spec fn side_len(s: Side, w: int, h: int) -> int {
    match s {
        Side::Top => w,
        Side::Bottom => w,
        Side::Left => h,
        Side::Right => h,
    }
}

/// Intermediate distribution state: current radii and the budgets
/// assigned so far.
pub struct DistState {
    pub r_tl: int,
    pub r_tr: int,
    pub r_bl: int,
    pub r_br: int,
    pub b_tl: Option<int>,
    pub b_tr: Option<int>,
    pub b_bl: Option<int>,
    pub b_br: Option<int>,
}

pub open spec fn radius_of(st: DistState, c: Corner) -> int {
    match c {
        Corner::TopLeft => st.r_tl,
        Corner::TopRight => st.r_tr,
        Corner::BottomLeft => st.r_bl,
        Corner::BottomRight => st.r_br,
    }
}

pub open spec fn budget_of(st: DistState, c: Corner) -> Option<int> {
    match c {
        Corner::TopLeft => st.b_tl,
        Corner::TopRight => st.b_tr,
        Corner::BottomLeft => st.b_bl,
        Corner::BottomRight => st.b_br,
    }
}

pub open spec fn with_budget(st: DistState, c: Corner, b: int) -> DistState {
    match c {
        Corner::TopLeft => DistState { b_tl: Some(b), ..st },
        Corner::TopRight => DistState { b_tr: Some(b), ..st },
        Corner::BottomLeft => DistState { b_bl: Some(b), ..st },
        Corner::BottomRight => DistState { b_br: Some(b), ..st },
    }
}

pub open spec fn with_radius(st: DistState, c: Corner, r: int) -> DistState {
    match c {
        Corner::TopLeft => DistState { r_tl: r, ..st },
        Corner::TopRight => DistState { r_tr: r, ..st },
        Corner::BottomLeft => DistState { r_bl: r, ..st },
        Corner::BottomRight => DistState { r_br: r, ..st },
    }
}

/// How much of one side the corner being served could take: nothing when
/// both radii on the side are zero, the remainder when the neighbor was
/// already served, and otherwise a share proportional to the radii.
pub open spec fn candidate_model(radius: int, adj_radius: int, adj_budget: Option<int>, side: int) -> int {
    if radius == 0 && adj_radius == 0 {
        0
    } else {
        match adj_budget {
            Some(b) => side - b,
            None => (radius * side) / (radius + adj_radius),
        }
    }
}

/// Serving one corner: its budget is the tighter of its two side
/// candidates, and its radius is clamped to that budget.
pub open spec fn step_model(st: DistState, c: Corner, radius: int, w: int, h: int) -> DistState {
    let ((a1c, a1s), (a2c, a2s)) = adjacents(c);
    let c1 = candidate_model(radius, radius_of(st, a1c), budget_of(st, a1c), side_len(a1s, w, h));
    let c2 = candidate_model(radius, radius_of(st, a2c), budget_of(st, a2c), side_len(a2s, w, h));
    let budget = if c1 <= c2 {
        c1
    } else {
        c2
    };
    let clamped = if radius <= budget {
        radius
    } else {
        budget
    };
    with_radius(with_budget(st, c, budget), c, clamped)
}

/// A compare-and-swap of two (corner, radius) pairs: the larger radius
/// moves to the front, ties keep their order.
pub open spec fn cswap(p: (Corner, int), q: (Corner, int)) -> ((Corner, int), (Corner, int)) {
    if p.1 < q.1 {
        (q, p)
    } else {
        (p, q)
    }
}

/// Stable descending insertion sort of the four (corner, radius) pairs:
/// the order in which the corners are served. Ties keep the encounter
/// order top-left, top-right, bottom-left, bottom-right.
pub open spec fn sort4(
    p0: (Corner, int),
    p1: (Corner, int),
    p2: (Corner, int),
    p3: (Corner, int),
) -> ((Corner, int), (Corner, int), (Corner, int), (Corner, int)) {
    let (q0, q1) = cswap(p0, p1);
    let (r1, r2) = cswap(q1, p2);
    let (s0, s1) = cswap(q0, r1);
    let (t2, t3) = cswap(r2, p3);
    let (u1, u2) = cswap(s1, t2);
    let (v0, v1) = cswap(s0, u1);
    (v0, v1, u2, t3)
}

pub open spec fn budget_or_zero(b: Option<int>) -> int {
    match b {
        Some(v) => v,
        None => 0,
    }
}

/// The whole distribution: serve the corners in descending order of
/// requested radius, then read off each corner's budget and clamped
/// radius.
#[verifier::opaque]
pub open spec fn dist_model(tl: int, tr: int, bl: int, br: int, w: int, h: int) -> CornersModel {
    let o = sort4((Corner::TopLeft, tl), (Corner::TopRight, tr), (Corner::BottomLeft, bl), (Corner::BottomRight, br));
    let st0 = DistState {
        r_tl: tl,
        r_tr: tr,
        r_bl: bl,
        r_br: br,
        b_tl: None,
        b_tr: None,
        b_bl: None,
        b_br: None,
    };
    let st1 = step_model(st0, o.0.0, o.0.1, w, h);
    let st2 = step_model(st1, o.1.0, o.1.1, w, h);
    let st3 = step_model(st2, o.2.0, o.2.1, w, h);
    let st4 = step_model(st3, o.3.0, o.3.1, w, h);
    CornersModel {
        top_left: CornerModel {
            radius: st4.r_tl,
            rounding_and_smoothing_budget: budget_or_zero(st4.b_tl),
        },
        top_right: CornerModel {
            radius: st4.r_tr,
            rounding_and_smoothing_budget: budget_or_zero(st4.b_tr),
        },
        bottom_left: CornerModel {
            radius: st4.r_bl,
            rounding_and_smoothing_budget: budget_or_zero(st4.b_bl),
        },
        bottom_right: CornerModel {
            radius: st4.r_br,
            rounding_and_smoothing_budget: budget_or_zero(st4.b_br),
        },
    }
}

/// The distribution invariant: radii stay in range; an assigned budget
/// lies between zero and both of its sides and covers the corner's
/// current radius, since the radius is clamped when the budget is
/// assigned; and the two budgets on a side never sum past the side's
/// length.
pub open spec fn inv(st: DistState, w: int, h: int) -> bool {
    &&& 0 <= st.r_tl <= FX_MAX
    &&& 0 <= st.r_tr <= FX_MAX
    &&& 0 <= st.r_bl <= FX_MAX
    &&& 0 <= st.r_br <= FX_MAX
    &&& (st.b_tl is Some ==> 0 <= st.b_tl->0 <= w && st.b_tl->0 <= h && st.r_tl <= st.b_tl->0)
    &&& (st.b_tr is Some ==> 0 <= st.b_tr->0 <= w && st.b_tr->0 <= h && st.r_tr <= st.b_tr->0)
    &&& (st.b_bl is Some ==> 0 <= st.b_bl->0 <= w && st.b_bl->0 <= h && st.r_bl <= st.b_bl->0)
    &&& (st.b_br is Some ==> 0 <= st.b_br->0 <= w && st.b_br->0 <= h && st.r_br <= st.b_br->0)
    &&& (st.b_tl is Some && st.b_tr is Some ==> st.b_tl->0 + st.b_tr->0 <= w)
    &&& (st.b_bl is Some && st.b_br is Some ==> st.b_bl->0 + st.b_br->0 <= w)
    &&& (st.b_tl is Some && st.b_bl is Some ==> st.b_tl->0 + st.b_bl->0 <= h)
    &&& (st.b_tr is Some && st.b_br is Some ==> st.b_tr->0 + st.b_br->0 <= h)
}

/// A candidate never exceeds its side, never goes negative, and leaves a
/// served neighbor's share untouched.
proof fn lemma_candidate_bounds(radius: int, adj_radius: int, adj_budget: Option<int>, side: int)
    requires
        0 <= radius,
        0 <= adj_radius,
        0 <= side,
        adj_budget is Some ==> 0 <= adj_budget->0 <= side,
    ensures
        0 <= candidate_model(radius, adj_radius, adj_budget, side) <= side,
        adj_budget is Some ==> candidate_model(radius, adj_radius, adj_budget, side)
            <= side - adj_budget->0,
{
    if !(radius == 0 && adj_radius == 0) && adj_budget is None {
        lemma_muldiv_bound(radius, side, radius + adj_radius, 1);
    }
}

/// Serving one unserved corner preserves the invariant and touches no
/// other corner's entry.
proof fn lemma_step_preserves(st: DistState, c: Corner, radius: int, w: int, h: int)
    requires
        inv(st, w, h),
        0 <= radius <= FX_MAX,
        0 <= w <= FX_MAX,
        0 <= h <= FX_MAX,
        budget_of(st, c) is None,
    ensures
        inv(step_model(st, c, radius, w, h), w, h),
        budget_of(step_model(st, c, radius, w, h), c) is Some,
        forall|x: Corner| x != c ==> budget_of(step_model(st, c, radius, w, h), x)
            == budget_of(st, x),
        forall|x: Corner| x != c ==> radius_of(step_model(st, c, radius, w, h), x)
            == radius_of(st, x),
{
    let ((a1c, a1s), (a2c, a2s)) = adjacents(c);
    lemma_candidate_bounds(
        radius,
        radius_of(st, a1c),
        budget_of(st, a1c),
        side_len(a1s, w, h),
    );
    lemma_candidate_bounds(
        radius,
        radius_of(st, a2c),
        budget_of(st, a2c),
        side_len(a2s, w, h),
    );
}

/// Sorting the four distinct corners yields the same four corners, each
/// still paired with its own radius.
proof fn lemma_sort4_corners(tl: int, tr: int, bl: int, br: int)
    ensures
        ({
            let o = sort4(
                (Corner::TopLeft, tl),
                (Corner::TopRight, tr),
                (Corner::BottomLeft, bl),
                (Corner::BottomRight, br),
            );
            &&& o.0.0 != o.1.0 && o.0.0 != o.2.0 && o.0.0 != o.3.0
            &&& o.1.0 != o.2.0 && o.1.0 != o.3.0 && o.2.0 != o.3.0
            &&& (o.0.0 == Corner::TopLeft ==> o.0.1 == tl)
            &&& (o.0.0 == Corner::TopRight ==> o.0.1 == tr)
            &&& (o.0.0 == Corner::BottomLeft ==> o.0.1 == bl)
            &&& (o.0.0 == Corner::BottomRight ==> o.0.1 == br)
            &&& (o.1.0 == Corner::TopLeft ==> o.1.1 == tl)
            &&& (o.1.0 == Corner::TopRight ==> o.1.1 == tr)
            &&& (o.1.0 == Corner::BottomLeft ==> o.1.1 == bl)
            &&& (o.1.0 == Corner::BottomRight ==> o.1.1 == br)
            &&& (o.2.0 == Corner::TopLeft ==> o.2.1 == tl)
            &&& (o.2.0 == Corner::TopRight ==> o.2.1 == tr)
            &&& (o.2.0 == Corner::BottomLeft ==> o.2.1 == bl)
            &&& (o.2.0 == Corner::BottomRight ==> o.2.1 == br)
            &&& (o.3.0 == Corner::TopLeft ==> o.3.1 == tl)
            &&& (o.3.0 == Corner::TopRight ==> o.3.1 == tr)
            &&& (o.3.0 == Corner::BottomLeft ==> o.3.1 == bl)
            &&& (o.3.0 == Corner::BottomRight ==> o.3.1 == br)
        }),
{
}

/// Budget conservation: every budget the distributor assigns lies within
/// both of its sides, the clamped radius lies within the budget, and the
/// two budgets that share a side sum to at most that side's length.
pub proof fn lemma_dist_model_conserves(tl: int, tr: int, bl: int, br: int, w: int, h: int)
    requires
        0 <= tl <= FX_MAX,
        0 <= tr <= FX_MAX,
        0 <= bl <= FX_MAX,
        0 <= br <= FX_MAX,
        0 <= w <= FX_MAX,
        0 <= h <= FX_MAX,
    ensures
        ({
            let m = dist_model(tl, tr, bl, br, w, h);
            &&& 0 <= m.top_left.radius <= m.top_left.rounding_and_smoothing_budget
            &&& 0 <= m.top_right.radius <= m.top_right.rounding_and_smoothing_budget
            &&& 0 <= m.bottom_left.radius <= m.bottom_left.rounding_and_smoothing_budget
            &&& 0 <= m.bottom_right.radius <= m.bottom_right.rounding_and_smoothing_budget
            &&& m.top_left.rounding_and_smoothing_budget <= w
            &&& m.top_left.rounding_and_smoothing_budget <= h
            &&& m.top_right.rounding_and_smoothing_budget <= w
            &&& m.top_right.rounding_and_smoothing_budget <= h
            &&& m.bottom_left.rounding_and_smoothing_budget <= w
            &&& m.bottom_left.rounding_and_smoothing_budget <= h
            &&& m.bottom_right.rounding_and_smoothing_budget <= w
            &&& m.bottom_right.rounding_and_smoothing_budget <= h
            &&& m.top_left.rounding_and_smoothing_budget
                + m.top_right.rounding_and_smoothing_budget <= w
            &&& m.bottom_left.rounding_and_smoothing_budget
                + m.bottom_right.rounding_and_smoothing_budget <= w
            &&& m.top_left.rounding_and_smoothing_budget
                + m.bottom_left.rounding_and_smoothing_budget <= h
            &&& m.top_right.rounding_and_smoothing_budget
                + m.bottom_right.rounding_and_smoothing_budget <= h
        }),
{
    reveal(dist_model);
    lemma_sort4_corners(tl, tr, bl, br);
    let o = sort4(
        (Corner::TopLeft, tl),
        (Corner::TopRight, tr),
        (Corner::BottomLeft, bl),
        (Corner::BottomRight, br),
    );
    let st0 = DistState {
        r_tl: tl,
        r_tr: tr,
        r_bl: bl,
        r_br: br,
        b_tl: None,
        b_tr: None,
        b_bl: None,
        b_br: None,
    };
    lemma_step_preserves(st0, o.0.0, o.0.1, w, h);
    let st1 = step_model(st0, o.0.0, o.0.1, w, h);
    lemma_step_preserves(st1, o.1.0, o.1.1, w, h);
    let st2 = step_model(st1, o.1.0, o.1.1, w, h);
    lemma_step_preserves(st2, o.2.0, o.2.1, w, h);
    let st3 = step_model(st2, o.2.0, o.2.1, w, h);
    lemma_step_preserves(st3, o.3.0, o.3.1, w, h);
    let st4 = step_model(st3, o.3.0, o.3.1, w, h);
    assert(st4.b_tl is Some && st4.b_tr is Some && st4.b_bl is Some && st4.b_br is Some);
}

/// An `Option<i64>` as an optional mathematical integer.
pub open spec fn opt_int(o: Option<i64>) -> Option<int> {
    match o {
        Some(v) => Some(v as int),
        None => None,
    }
}

/// Working state of the executable distributor.
struct WorkState {
    r_tl: i64,
    r_tr: i64,
    r_bl: i64,
    r_br: i64,
    b_tl: Option<i64>,
    b_tr: Option<i64>,
    b_bl: Option<i64>,
    b_br: Option<i64>,
}

impl View for WorkState {
    type V = DistState;

    closed spec fn view(&self) -> DistState {
        DistState {
            r_tl: self.r_tl as int,
            r_tr: self.r_tr as int,
            r_bl: self.r_bl as int,
            r_br: self.r_br as int,
            b_tl: opt_int(self.b_tl),
            b_tr: opt_int(self.b_tr),
            b_bl: opt_int(self.b_bl),
            b_br: opt_int(self.b_br),
        }
    }
}

fn adjacent_corners(c: Corner) -> (r: ((Corner, Side), (Corner, Side)))
    ensures
        r == adjacents(c),
{
    match c {
        Corner::TopLeft => ((Corner::TopRight, Side::Top), (Corner::BottomLeft, Side::Left)),
        Corner::TopRight => ((Corner::TopLeft, Side::Top), (Corner::BottomRight, Side::Right)),
        Corner::BottomLeft => ((Corner::BottomRight, Side::Bottom), (Corner::TopLeft, Side::Left)),
        Corner::BottomRight => ((Corner::BottomLeft, Side::Bottom), (Corner::TopRight, Side::Right)),
    }
}

fn side_length(s: Side, w: i64, h: i64) -> (r: i64)
    ensures
        r as int == side_len(s, w as int, h as int),
{
    match s {
        Side::Top => w,
        Side::Bottom => w,
        Side::Left => h,
        Side::Right => h,
    }
}

fn radius_value(st: &WorkState, c: Corner) -> (r: i64)
    ensures
        r as int == radius_of(st@, c),
{
    match c {
        Corner::TopLeft => st.r_tl,
        Corner::TopRight => st.r_tr,
        Corner::BottomLeft => st.r_bl,
        Corner::BottomRight => st.r_br,
    }
}

fn budget_value(st: &WorkState, c: Corner) -> (r: Option<i64>)
    ensures
        opt_int(r) == budget_of(st@, c),
{
    match c {
        Corner::TopLeft => st.b_tl,
        Corner::TopRight => st.b_tr,
        Corner::BottomLeft => st.b_bl,
        Corner::BottomRight => st.b_br,
    }
}

fn candidate(radius: i64, adj_radius: i64, adj_budget: Option<i64>, side: i64) -> (r: i64)
    requires
        0 <= radius <= FX_MAX,
        0 <= adj_radius <= FX_MAX,
        0 <= side <= FX_MAX,
        adj_budget is Some ==> 0 <= adj_budget->0 <= side,
    ensures
        r as int == candidate_model(radius as int, adj_radius as int, opt_int(adj_budget), side as int),
        0 <= r <= side,
{
    if radius == 0 && adj_radius == 0 {
        0
    } else {
        match adj_budget {
            Some(b) => side - b,
            None => {
                proof {
                    assert((radius as int) * (side as int)
                        <= (radius as int + adj_radius as int) * 0x7fff_ffff_ffff_ffff)
                        by (nonlinear_arith)
                        requires
                            0 <= radius <= 100_000_000_000i64,
                            0 <= adj_radius,
                            0 <= side <= 100_000_000_000i64,
                            radius != 0 || adj_radius != 0,
                    ;
                    lemma_muldiv_bound(
                        radius as int,
                        side as int,
                        radius as int + adj_radius as int,
                        1,
                    );
                }
                muldiv(radius, side, radius + adj_radius)
            },
        }
    }
}

fn process_corner(st: WorkState, c: Corner, radius: i64, w: i64, h: i64) -> (r: WorkState)
    requires
        inv(st@, w as int, h as int),
        0 <= radius <= FX_MAX,
        0 <= w <= FX_MAX,
        0 <= h <= FX_MAX,
    ensures
        r@ == step_model(st@, c, radius as int, w as int, h as int),
{
    let ((a1c, a1s), (a2c, a2s)) = adjacent_corners(c);
    let s1: i64 = side_length(a1s, w, h);
    let s2: i64 = side_length(a2s, w, h);
    let c1: i64 = candidate(radius, radius_value(&st, a1c), budget_value(&st, a1c), s1);
    let c2: i64 = candidate(radius, radius_value(&st, a2c), budget_value(&st, a2c), s2);
    let budget: i64 = if c1 <= c2 {
        c1
    } else {
        c2
    };
    let clamped: i64 = if radius <= budget {
        radius
    } else {
        budget
    };
    match c {
        Corner::TopLeft => WorkState { b_tl: Some(budget), r_tl: clamped, ..st },
        Corner::TopRight => WorkState { b_tr: Some(budget), r_tr: clamped, ..st },
        Corner::BottomLeft => WorkState { b_bl: Some(budget), r_bl: clamped, ..st },
        Corner::BottomRight => WorkState { b_br: Some(budget), r_br: clamped, ..st },
    }
}

/// Computes each corner's side budget and clamped radius, serving the
/// corners in descending order of requested radius, ties in the order
/// top-left, top-right, bottom-left, bottom-right.
#[verifier::rlimit(100)]
pub fn distribute_and_normalize(rect: RoundedRectangle) -> (r: NormalizedCorners)
    requires
        0 <= rect.top_left_corner_radius <= FX_MAX,
        0 <= rect.top_right_corner_radius <= FX_MAX,
        0 <= rect.bottom_left_corner_radius <= FX_MAX,
        0 <= rect.bottom_right_corner_radius <= FX_MAX,
        0 <= rect.width <= FX_MAX,
        0 <= rect.height <= FX_MAX,
    ensures
        r@ == dist_model(
            rect.top_left_corner_radius as int,
            rect.top_right_corner_radius as int,
            rect.bottom_left_corner_radius as int,
            rect.bottom_right_corner_radius as int,
            rect.width as int,
            rect.height as int,
        ),
        0 <= r.top_left.radius <= r.top_left.rounding_and_smoothing_budget,
        0 <= r.top_right.radius <= r.top_right.rounding_and_smoothing_budget,
        0 <= r.bottom_left.radius <= r.bottom_left.rounding_and_smoothing_budget,
        0 <= r.bottom_right.radius <= r.bottom_right.rounding_and_smoothing_budget,
        r.top_left.rounding_and_smoothing_budget <= rect.width,
        r.top_left.rounding_and_smoothing_budget <= rect.height,
        r.top_right.rounding_and_smoothing_budget <= rect.width,
        r.top_right.rounding_and_smoothing_budget <= rect.height,
        r.bottom_left.rounding_and_smoothing_budget <= rect.width,
        r.bottom_left.rounding_and_smoothing_budget <= rect.height,
        r.bottom_right.rounding_and_smoothing_budget <= rect.width,
        r.bottom_right.rounding_and_smoothing_budget <= rect.height,
{
    proof {
        reveal(dist_model);
        lemma_dist_model_conserves(
            rect.top_left_corner_radius as int,
            rect.top_right_corner_radius as int,
            rect.bottom_left_corner_radius as int,
            rect.bottom_right_corner_radius as int,
            rect.width as int,
            rect.height as int,
        );
    }
    let w: i64 = rect.width;
    let h: i64 = rect.height;
    let p0: (Corner, i64) = (Corner::TopLeft, rect.top_left_corner_radius);
    let p1: (Corner, i64) = (Corner::TopRight, rect.top_right_corner_radius);
    let p2: (Corner, i64) = (Corner::BottomLeft, rect.bottom_left_corner_radius);
    let p3: (Corner, i64) = (Corner::BottomRight, rect.bottom_right_corner_radius);
    let (m0, m1) = if p0.1 < p1.1 {
        (p1, p0)
    } else {
        (p0, p1)
    };
    let (n1, n2) = if m1.1 < p2.1 {
        (p2, m1)
    } else {
        (m1, p2)
    };
    let (s0, s1) = if m0.1 < n1.1 {
        (n1, m0)
    } else {
        (m0, n1)
    };
    let (t2, t3) = if n2.1 < p3.1 {
        (p3, n2)
    } else {
        (n2, p3)
    };
    let (u1, u2) = if s1.1 < t2.1 {
        (t2, s1)
    } else {
        (s1, t2)
    };
    let (v0, v1) = if s0.1 < u1.1 {
        (u1, s0)
    } else {
        (s0, u1)
    };
    let ghost o = sort4(
        (Corner::TopLeft, rect.top_left_corner_radius as int),
        (Corner::TopRight, rect.top_right_corner_radius as int),
        (Corner::BottomLeft, rect.bottom_left_corner_radius as int),
        (Corner::BottomRight, rect.bottom_right_corner_radius as int),
    );
    proof {
        assert(o.0 == (v0.0, v0.1 as int));
        assert(o.1 == (v1.0, v1.1 as int));
        assert(o.2 == (u2.0, u2.1 as int));
        assert(o.3 == (t3.0, t3.1 as int));
        lemma_sort4_corners(
            rect.top_left_corner_radius as int,
            rect.top_right_corner_radius as int,
            rect.bottom_left_corner_radius as int,
            rect.bottom_right_corner_radius as int,
        );
    }
    let st0 = WorkState {
        r_tl: rect.top_left_corner_radius,
        r_tr: rect.top_right_corner_radius,
        r_bl: rect.bottom_left_corner_radius,
        r_br: rect.bottom_right_corner_radius,
        b_tl: None,
        b_tr: None,
        b_bl: None,
        b_br: None,
    };
    proof {
        lemma_step_preserves(st0@, v0.0, v0.1 as int, w as int, h as int);
    }
    let st1 = process_corner(st0, v0.0, v0.1, w, h);
    proof {
        lemma_step_preserves(st1@, v1.0, v1.1 as int, w as int, h as int);
    }
    let st2 = process_corner(st1, v1.0, v1.1, w, h);
    proof {
        lemma_step_preserves(st2@, u2.0, u2.1 as int, w as int, h as int);
    }
    let st3 = process_corner(st2, u2.0, u2.1, w, h);
    proof {
        lemma_step_preserves(st3@, t3.0, t3.1 as int, w as int, h as int);
    }
    let st4 = process_corner(st3, t3.0, t3.1, w, h);
    NormalizedCorners {
        top_left: NormalizedCorner {
            radius: st4.r_tl,
            rounding_and_smoothing_budget: match st4.b_tl {
                Some(v) => v,
                None => 0,
            },
        },
        top_right: NormalizedCorner {
            radius: st4.r_tr,
            rounding_and_smoothing_budget: match st4.b_tr {
                Some(v) => v,
                None => 0,
            },
        },
        bottom_left: NormalizedCorner {
            radius: st4.r_bl,
            rounding_and_smoothing_budget: match st4.b_bl {
                Some(v) => v,
                None => 0,
            },
        },
        bottom_right: NormalizedCorner {
            radius: st4.r_br,
            rounding_and_smoothing_budget: match st4.b_br {
                Some(v) => v,
                None => 0,
            },
        },
    }
}

} // verus!
