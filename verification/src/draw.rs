//! Corner curve construction and path rendering.
//!
//! For one corner, [`get_path_params_for_corner`] turns a radius, a
//! smoothing factor and the corner's side budget into the seven scalars of
//! a cubic-Bezier / circular-arc / cubic-Bezier composite curve, following
//! the superellipse approximation of the Figma squircle construction.
//! [`get_svg_path_from_path_params`] then renders four such corners as one
//! path string.

use vstd::prelude::*;
use vstd::string::StringExecFns;
use crate::fixed::{muldiv, div_trunc, spec_div_trunc, FX_ONE, FX_MAX};
use crate::trig::{
    deg2rad, sin_fx, cos_fx, tan_fx, spec_deg2rad, spec_sin_fx, spec_cos_fx, spec_tan_fx,
    SQRT2_FX,
};
use crate::text::{append_fixed4, append_coord, spec_fixed4, spec_coord};

verus! {

/// Mathematical model of one corner's curve parameters.
pub struct CurveModel {
    pub a: int,
    pub b: int,
    pub c: int,
    pub d: int,
    pub p: int,
    pub corner_radius: int,
    pub arc_section_length: int,
}

/// The seven scalars that define one corner's composite curve.
#[derive(PartialEq, Eq, Structural, Clone, Copy, Debug)]
pub struct CornerPathParams {
    pub a: i64,
    pub b: i64,
    pub c: i64,
    pub d: i64,
    pub p: i64,
    pub corner_radius: i64,
    pub arc_section_length: i64,
}

impl View for CornerPathParams {
    type V = CurveModel;

    open spec fn view(&self) -> CurveModel {
        CurveModel {
            a: self.a as int,
            b: self.b as int,
            c: self.c as int,
            d: self.d as int,
            p: self.p as int,
            corner_radius: self.corner_radius as int,
            arc_section_length: self.arc_section_length as int,
        }
    }
}

/// One corner's inputs to the curve construction.
pub struct CornerParams {
    pub corner_radius: i64,
    pub corner_smoothing: i64,
    pub preserve_smoothing: bool,
    pub rounding_and_smoothing_budget: i64,
}

/// The curve parameters, step by step, over the mathematical integers.
///
/// `p` is the linear extent the curve occupies along each adjacent side,
/// `(1 + smoothing) * radius` before any clamping. Without
/// `preserve`, the effective smoothing is first capped so that `p` fits
/// the budget; with it, the smoothing is kept and the two Bezier control
/// offsets `a` and `b` are compressed to fit instead.
#[verifier::opaque]
pub open spec fn solve_model(radius: int, smoothing: int, preserve: bool, budget: int) -> CurveModel {
    let p0 = ((10000 + smoothing) * radius) / 10000;
    let s = if !preserve && radius > 0 {
        let maxs = (budget * 10000) / radius - 10000;
        if smoothing <= maxs {
            smoothing
        } else {
            maxs
        }
    } else {
        smoothing
    };
    let p1 = if !preserve {
        if p0 <= budget {
            p0
        } else {
            budget
        }
    } else {
        p0
    };
    let arc_deg = 90 * (10000 - s);
    let asl1 = (spec_sin_fx(spec_deg2rad(arc_deg / 2)) * radius) / 10000;
    let asl = (asl1 * 14142) / 10000;
    let p3p4 = (radius * spec_tan_fx(spec_deg2rad((45 * s) / 2))) / 10000;
    let beta_rad = spec_deg2rad(45 * s);
    let c = (p3p4 * spec_cos_fx(beta_rad)) / 10000;
    let d = (c * spec_tan_fx(beta_rad)) / 10000;
    let b0 = spec_div_trunc(p1 - asl - c - d, 3);
    if preserve && p1 > budget {
        let room = budget - d - asl - c;
        let min_a = spec_div_trunc(room, 6);
        let max_b = room - min_a;
        let b1 = if b0 <= max_b {
            b0
        } else {
            max_b
        };
        CurveModel {
            a: room - b1,
            b: b1,
            c,
            d,
            p: budget,
            corner_radius: radius,
            arc_section_length: asl,
        }
    } else {
        CurveModel {
            a: 2 * b0,
            b: b0,
            c,
            d,
            p: p1,
            corner_radius: radius,
            arc_section_length: asl,
        }
    }
}

/// Derives one corner's curve parameters.
///
/// The radius must already be clamped to the corner's budget; the
/// distributor and the uniform fast path both guarantee it. Inputs
/// outside these ranges are the caller's error, so they are rejected
/// here by precondition rather than propagated.
pub fn get_path_params_for_corner(params: CornerParams) -> (r: CornerPathParams)
    requires
        0 <= params.corner_radius <= params.rounding_and_smoothing_budget,
        params.rounding_and_smoothing_budget <= FX_MAX,
        0 <= params.corner_smoothing <= FX_ONE,
    ensures
        r@ == solve_model(
            params.corner_radius as int,
            params.corner_smoothing as int,
            params.preserve_smoothing,
            params.rounding_and_smoothing_budget as int,
        ),
        0 <= r.p <= params.rounding_and_smoothing_budget,
        0 <= r.arc_section_length <= 2 * params.corner_radius,
        0 <= r.c <= 4 * params.corner_radius,
        0 <= r.d <= 8 * params.corner_radius,
        r.corner_radius == params.corner_radius,
        -15 * params.corner_radius <= r.b <= params.corner_radius,
        -16 * (params.corner_radius + params.rounding_and_smoothing_budget) <= r.a
            <= 16 * (params.corner_radius + params.rounding_and_smoothing_budget),
{
    proof {
        reveal(solve_model);
    }
    let radius: i64 = params.corner_radius;
    let smoothing: i64 = params.corner_smoothing;
    let preserve: bool = params.preserve_smoothing;
    let budget: i64 = params.rounding_and_smoothing_budget;

    proof {
        assert((10000 + smoothing as int) * (radius as int) <= 10000 * 0x7fff_ffff_ffff_ffff)
            by (nonlinear_arith)
            requires 0 <= smoothing <= 10000, 0 <= radius <= 100_000_000_000i64,
        ;
    }
    let p0: i64 = muldiv(10000 + smoothing, radius, 10000);
    let s: i64 = if !preserve && radius > 0 {
        proof {
            assert((budget as int) * 10000 <= (radius as int) * 0x7fff_ffff_ffff_ffff)
                by (nonlinear_arith)
                requires 0 < radius, 0 <= budget <= 100_000_000_000i64,
            ;
            vstd::arithmetic::mul::lemma_mul_inequality(radius as int, budget as int, 10000);
            vstd::arithmetic::div_mod::lemma_div_is_ordered(
                (radius as int) * 10000,
                (budget as int) * 10000,
                radius as int,
            );
            vstd::arithmetic::div_mod::lemma_div_multiples_vanish(10000, radius as int);
            assert((radius as int) * 10000 == 10000 * (radius as int)) by (nonlinear_arith);
        }
        let maxs: i64 = muldiv(budget, 10000, radius) - 10000;
        if smoothing <= maxs {
            smoothing
        } else {
            maxs
        }
    } else {
        smoothing
    };
    let p1: i64 = if !preserve {
        if p0 <= budget {
            p0
        } else {
            budget
        }
    } else {
        p0
    };
    let arc_deg: i64 = 90 * (10000 - s);
    let half_rad: i64 = deg2rad(div_trunc(arc_deg, 2));
    let sin_half: i64 = sin_fx(half_rad);
    proof {
        crate::fixed::lemma_prod_le(sin_half as int, 7905, radius as int, 100_000_000_000);
    }
    let asl1: i64 = muldiv(sin_half, radius, 10000);
    proof {
        crate::fixed::lemma_prod_le(asl1 as int, 100_000_000_000, 14142, 14142);
    }
    let asl: i64 = muldiv(asl1, SQRT2_FX, 10000);
    let alpha_half_rad: i64 = deg2rad(div_trunc(45 * s, 2));
    let tan_alpha: i64 = tan_fx(alpha_half_rad);
    proof {
        crate::fixed::lemma_prod_le(radius as int, 100_000_000_000, tan_alpha as int, 11435);
    }
    let p3p4: i64 = muldiv(radius, tan_alpha, 10000);
    let beta_rad: i64 = deg2rad(45 * s);
    let cos_beta: i64 = cos_fx(beta_rad);
    let tan_beta: i64 = tan_fx(beta_rad);
    proof {
        crate::fixed::lemma_prod_le(p3p4 as int, 200_000_000_000, cos_beta as int, 10158);
    }
    let c: i64 = muldiv(p3p4, cos_beta, 10000);
    proof {
        crate::fixed::lemma_prod_le(c as int, 400_000_000_000, tan_beta as int, 11435);
    }
    let d: i64 = muldiv(c, tan_beta, 10000);
    let b0: i64 = div_trunc(p1 - asl - c - d, 3);
    if preserve && p1 > budget {
        let room: i64 = budget - d - asl - c;
        let min_a: i64 = div_trunc(room, 6);
        let max_b: i64 = room - min_a;
        let b1: i64 = if b0 <= max_b {
            b0
        } else {
            max_b
        };
        CornerPathParams {
            a: room - b1,
            b: b1,
            c,
            d,
            p: budget,
            corner_radius: radius,
            arc_section_length: asl,
        }
    } else {
        CornerPathParams {
            a: 2 * b0,
            b: b0,
            c,
            d,
            p: p1,
            corner_radius: radius,
            arc_section_length: asl,
        }
    }
}

/// Ranges within which the renderer's arithmetic cannot overflow; every
/// value the solver emits for a clamped radius satisfies them.
pub open spec fn params_wf(m: CurveModel) -> bool {
    &&& -4_000_000_000_000 <= m.a <= 4_000_000_000_000
    &&& -4_000_000_000_000 <= m.b <= 4_000_000_000_000
    &&& 0 <= m.c <= 4_000_000_000_000
    &&& 0 <= m.d <= 4_000_000_000_000
    &&& 0 <= m.p <= FX_MAX
    &&& 0 <= m.corner_radius <= FX_MAX
    &&& 0 <= m.arc_section_length <= 4_000_000_000_000
}

/// The top-right corner's three curve commands; empty for a sharp corner.
pub open spec fn top_right_commands(m: CurveModel) -> Seq<char> {
    if m.corner_radius != 0 {
        "c "@ + spec_fixed4(m.a) + " 0 "@ + spec_fixed4(m.a + m.b) + " 0 "@ + spec_fixed4(
            m.a + m.b + m.c,
        ) + " "@ + spec_fixed4(m.d) + " a "@ + spec_fixed4(m.corner_radius) + " "@ + spec_fixed4(
            m.corner_radius,
        ) + " 0 0 1 "@ + spec_fixed4(m.arc_section_length) + " "@ + spec_fixed4(
            m.arc_section_length,
        ) + " c "@ + spec_fixed4(m.d) + " "@ + spec_fixed4(m.c) + " "@ + spec_fixed4(m.d) + " "@
            + spec_fixed4(m.b + m.c) + " "@ + spec_fixed4(m.d) + " "@ + spec_fixed4(m.a + m.b + m.c)
    } else {
        Seq::empty()
    }
}

/// The bottom-right corner's three curve commands; empty for a sharp corner.
pub open spec fn bottom_right_commands(m: CurveModel) -> Seq<char> {
    if m.corner_radius != 0 {
        "c 0 "@ + spec_fixed4(m.a) + " 0 "@ + spec_fixed4(m.a + m.b) + " "@ + spec_fixed4(-m.d)
            + " "@ + spec_fixed4(m.a + m.b + m.c) + " a "@ + spec_fixed4(m.corner_radius) + " "@
            + spec_fixed4(m.corner_radius) + " 0 0 1 -"@ + spec_fixed4(m.arc_section_length) + " "@
            + spec_fixed4(m.arc_section_length) + " c "@ + spec_fixed4(-m.c) + " "@ + spec_fixed4(
            m.d,
        ) + " "@ + spec_fixed4(-(m.b + m.c)) + " "@ + spec_fixed4(m.d) + " "@ + spec_fixed4(
            -(m.a + m.b + m.c),
        ) + " "@ + spec_fixed4(m.d)
    } else {
        Seq::empty()
    }
}

/// The bottom-left corner's three curve commands; empty for a sharp corner.
pub open spec fn bottom_left_commands(m: CurveModel) -> Seq<char> {
    if m.corner_radius != 0 {
        "c "@ + spec_fixed4(-m.a) + " 0 "@ + spec_fixed4(-(m.a + m.b)) + " 0 "@ + spec_fixed4(
            -(m.a + m.b + m.c),
        ) + " "@ + spec_fixed4(-m.d) + " a "@ + spec_fixed4(m.corner_radius) + " "@ + spec_fixed4(
            m.corner_radius,
        ) + " 0 0 1 -"@ + spec_fixed4(m.arc_section_length) + " -"@ + spec_fixed4(
            m.arc_section_length,
        ) + " c "@ + spec_fixed4(-m.d) + " "@ + spec_fixed4(-m.c) + " "@ + spec_fixed4(-m.d) + " "@
            + spec_fixed4(-(m.b + m.c)) + " "@ + spec_fixed4(-m.d) + " "@ + spec_fixed4(
            -(m.a + m.b + m.c),
        )
    } else {
        Seq::empty()
    }
}

/// The top-left corner's three curve commands; empty for a sharp corner.
pub open spec fn top_left_commands(m: CurveModel) -> Seq<char> {
    if m.corner_radius != 0 {
        "c 0 "@ + spec_fixed4(-m.a) + " 0 "@ + spec_fixed4(-(m.a + m.b)) + " "@ + spec_fixed4(m.d)
            + " "@ + spec_fixed4(-(m.a + m.b + m.c)) + " a "@ + spec_fixed4(m.corner_radius) + " "@
            + spec_fixed4(m.corner_radius) + " 0 0 1 "@ + spec_fixed4(m.arc_section_length) + " -"@
            + spec_fixed4(m.arc_section_length) + " c "@ + spec_fixed4(m.c) + " "@ + spec_fixed4(
            -m.d,
        ) + " "@ + spec_fixed4(m.b + m.c) + " "@ + spec_fixed4(-m.d) + " "@ + spec_fixed4(
            m.a + m.b + m.c,
        ) + " "@ + spec_fixed4(-m.d)
    } else {
        Seq::empty()
    }
}

/// A sharp corner emits no curve commands, whatever the smoothing inputs
/// were: a zero radius leaves the corner a plain right angle.
pub proof fn lemma_degenerate_corner(m: CurveModel)
    requires
        m.corner_radius == 0,
    ensures
        top_right_commands(m) == Seq::<char>::empty(),
        bottom_right_commands(m) == Seq::<char>::empty(),
        bottom_left_commands(m) == Seq::<char>::empty(),
        top_left_commands(m) == Seq::<char>::empty(),
{
}

/// Once the requested extent `(1 + smoothing) * radius` saturates the
/// budget and smoothing is not preserved, raising the smoothing further
/// changes nothing: both settings clamp to the same effective smoothing
/// and the same extent, so every derived parameter agrees.
pub proof fn lemma_smoothing_clamp_saturates(radius: int, s1: int, s2: int, budget: int)
    requires
        0 < radius <= budget,
        budget <= FX_MAX,
        0 <= s1 <= 10000,
        0 <= s2 <= 10000,
        ((10000 + s1) * radius) / 10000 >= budget,
        ((10000 + s2) * radius) / 10000 >= budget,
    ensures
        solve_model(radius, s1, false, budget) == solve_model(radius, s2, false, budget),
{
    reveal(solve_model);
    let q = (budget * 10000) / radius;
    vstd::arithmetic::div_mod::lemma_fundamental_div_mod(budget * 10000, radius);
    vstd::arithmetic::div_mod::lemma_mod_bound(budget * 10000, radius);
    lemma_saturated_smoothing_is_clamped(radius, s1, budget, q);
    lemma_saturated_smoothing_is_clamped(radius, s2, budget, q);
}

/// With the extent at or past the budget, the smoothing clamp is tight:
/// the effective smoothing is exactly the budget-derived maximum.
proof fn lemma_saturated_smoothing_is_clamped(radius: int, s: int, budget: int, q: int)
    requires
        0 < radius,
        0 <= s,
        0 <= budget,
        ((10000 + s) * radius) / 10000 >= budget,
        q == (budget * 10000) / radius,
        budget * 10000 == radius * q + (budget * 10000) % radius,
        0 <= (budget * 10000) % radius < radius,
    ensures
        10000 + s >= q,
{
    let x = (10000 + s) * radius;
    vstd::arithmetic::div_mod::lemma_fundamental_div_mod(x, 10000);
    vstd::arithmetic::div_mod::lemma_mod_bound(x, 10000);
    vstd::arithmetic::mul::lemma_mul_inequality(budget, x / 10000, 10000);
    assert(x >= budget * 10000);
    assert(x >= radius * q);
    assert(10000 + s >= q) by (nonlinear_arith)
        requires (10000 + s) * radius >= radius * q, 0 < radius,
    ;
}

/// The renderer's input: the rectangle and the four corners' parameters.
pub struct SvgPathInput<'a> {
    pub width: i64,
    pub height: i64,
    pub top_left_path_params: &'a CornerPathParams,
    pub top_right_path_params: &'a CornerPathParams,
    pub bottom_right_path_params: &'a CornerPathParams,
    pub bottom_left_path_params: &'a CornerPathParams,
}

/// The whole outline: a move to the start of the top-right curve, then
/// the four corners' commands joined by lines along the sides.
#[verifier::opaque]
pub open spec fn path_model(w: int, h: int, tl: CurveModel, tr: CurveModel, br: CurveModel, bl: CurveModel) -> Seq<char> {
    "M "@ + spec_coord(w - tr.p) + " 0 "@ + top_right_commands(tr) + " L "@ + spec_coord(w) + " "@
        + spec_coord(h - br.p) + " "@ + bottom_right_commands(br) + " L "@ + spec_coord(bl.p)
        + " "@ + spec_coord(h) + " "@ + bottom_left_commands(bl) + " L 0 "@ + spec_coord(tl.p)
        + " "@ + top_left_commands(tl) + " Z"@
}

fn draw_top_right_path(m: &CornerPathParams) -> (r: String)
    requires
        params_wf(m@),
    ensures
        r@ == top_right_commands(m@),
{
    let mut out = String::new();
    if m.corner_radius != 0 {
        out.append("c ");
        append_fixed4(&mut out, m.a);
        out.append(" 0 ");
        append_fixed4(&mut out, m.a + m.b);
        out.append(" 0 ");
        append_fixed4(&mut out, m.a + m.b + m.c);
        out.append(" ");
        append_fixed4(&mut out, m.d);
        out.append(" a ");
        append_fixed4(&mut out, m.corner_radius);
        out.append(" ");
        append_fixed4(&mut out, m.corner_radius);
        out.append(" 0 0 1 ");
        append_fixed4(&mut out, m.arc_section_length);
        out.append(" ");
        append_fixed4(&mut out, m.arc_section_length);
        out.append(" c ");
        append_fixed4(&mut out, m.d);
        out.append(" ");
        append_fixed4(&mut out, m.c);
        out.append(" ");
        append_fixed4(&mut out, m.d);
        out.append(" ");
        append_fixed4(&mut out, m.b + m.c);
        out.append(" ");
        append_fixed4(&mut out, m.d);
        out.append(" ");
        append_fixed4(&mut out, m.a + m.b + m.c);
        proof {
            assert(out@ =~= top_right_commands(m@));
        }
    } else {
        proof {
            assert(out@ =~= top_right_commands(m@));
        }
    }
    out
}

fn draw_bottom_right_path(m: &CornerPathParams) -> (r: String)
    requires
        params_wf(m@),
    ensures
        r@ == bottom_right_commands(m@),
{
    let mut out = String::new();
    if m.corner_radius != 0 {
        out.append("c 0 ");
        append_fixed4(&mut out, m.a);
        out.append(" 0 ");
        append_fixed4(&mut out, m.a + m.b);
        out.append(" ");
        append_fixed4(&mut out, -m.d);
        out.append(" ");
        append_fixed4(&mut out, m.a + m.b + m.c);
        out.append(" a ");
        append_fixed4(&mut out, m.corner_radius);
        out.append(" ");
        append_fixed4(&mut out, m.corner_radius);
        out.append(" 0 0 1 -");
        append_fixed4(&mut out, m.arc_section_length);
        out.append(" ");
        append_fixed4(&mut out, m.arc_section_length);
        out.append(" c ");
        append_fixed4(&mut out, -m.c);
        out.append(" ");
        append_fixed4(&mut out, m.d);
        out.append(" ");
        append_fixed4(&mut out, -(m.b + m.c));
        out.append(" ");
        append_fixed4(&mut out, m.d);
        out.append(" ");
        append_fixed4(&mut out, -(m.a + m.b + m.c));
        out.append(" ");
        append_fixed4(&mut out, m.d);
        proof {
            assert(out@ =~= bottom_right_commands(m@));
        }
    } else {
        proof {
            assert(out@ =~= bottom_right_commands(m@));
        }
    }
    out
}

fn draw_bottom_left_path(m: &CornerPathParams) -> (r: String)
    requires
        params_wf(m@),
    ensures
        r@ == bottom_left_commands(m@),
{
    let mut out = String::new();
    if m.corner_radius != 0 {
        out.append("c ");
        append_fixed4(&mut out, -m.a);
        out.append(" 0 ");
        append_fixed4(&mut out, -(m.a + m.b));
        out.append(" 0 ");
        append_fixed4(&mut out, -(m.a + m.b + m.c));
        out.append(" ");
        append_fixed4(&mut out, -m.d);
        out.append(" a ");
        append_fixed4(&mut out, m.corner_radius);
        out.append(" ");
        append_fixed4(&mut out, m.corner_radius);
        out.append(" 0 0 1 -");
        append_fixed4(&mut out, m.arc_section_length);
        out.append(" -");
        append_fixed4(&mut out, m.arc_section_length);
        out.append(" c ");
        append_fixed4(&mut out, -m.d);
        out.append(" ");
        append_fixed4(&mut out, -m.c);
        out.append(" ");
        append_fixed4(&mut out, -m.d);
        out.append(" ");
        append_fixed4(&mut out, -(m.b + m.c));
        out.append(" ");
        append_fixed4(&mut out, -m.d);
        out.append(" ");
        append_fixed4(&mut out, -(m.a + m.b + m.c));
        proof {
            assert(out@ =~= bottom_left_commands(m@));
        }
    } else {
        proof {
            assert(out@ =~= bottom_left_commands(m@));
        }
    }
    out
}

fn draw_top_left_path(m: &CornerPathParams) -> (r: String)
    requires
        params_wf(m@),
    ensures
        r@ == top_left_commands(m@),
{
    let mut out = String::new();
    if m.corner_radius != 0 {
        out.append("c 0 ");
        append_fixed4(&mut out, -m.a);
        out.append(" 0 ");
        append_fixed4(&mut out, -(m.a + m.b));
        out.append(" ");
        append_fixed4(&mut out, m.d);
        out.append(" ");
        append_fixed4(&mut out, -(m.a + m.b + m.c));
        out.append(" a ");
        append_fixed4(&mut out, m.corner_radius);
        out.append(" ");
        append_fixed4(&mut out, m.corner_radius);
        out.append(" 0 0 1 ");
        append_fixed4(&mut out, m.arc_section_length);
        out.append(" -");
        append_fixed4(&mut out, m.arc_section_length);
        out.append(" c ");
        append_fixed4(&mut out, m.c);
        out.append(" ");
        append_fixed4(&mut out, -m.d);
        out.append(" ");
        append_fixed4(&mut out, m.b + m.c);
        out.append(" ");
        append_fixed4(&mut out, -m.d);
        out.append(" ");
        append_fixed4(&mut out, m.a + m.b + m.c);
        out.append(" ");
        append_fixed4(&mut out, -m.d);
        proof {
            assert(out@ =~= top_left_commands(m@));
        }
    } else {
        proof {
            assert(out@ =~= top_left_commands(m@));
        }
    }
    out
}

/// Renders the four corners' parameters as the outline's path string.
pub fn get_svg_path_from_path_params(input: SvgPathInput<'_>) -> (r: String)
    requires
        0 <= input.width <= FX_MAX,
        0 <= input.height <= FX_MAX,
        params_wf(input.top_left_path_params@),
        params_wf(input.top_right_path_params@),
        params_wf(input.bottom_right_path_params@),
        params_wf(input.bottom_left_path_params@),
        input.top_right_path_params.p <= input.width,
        input.bottom_right_path_params.p <= input.height,
    ensures
        r@ == path_model(
            input.width as int,
            input.height as int,
            input.top_left_path_params@,
            input.top_right_path_params@,
            input.bottom_right_path_params@,
            input.bottom_left_path_params@,
        ),
{
    proof {
        reveal(path_model);
    }
    let tr_cmds: String = draw_top_right_path(input.top_right_path_params);
    let br_cmds: String = draw_bottom_right_path(input.bottom_right_path_params);
    let bl_cmds: String = draw_bottom_left_path(input.bottom_left_path_params);
    let tl_cmds: String = draw_top_left_path(input.top_left_path_params);
    let mut out = String::new();
    out.append("M ");
    append_coord(&mut out, input.width - input.top_right_path_params.p);
    out.append(" 0 ");
    out.append(tr_cmds.as_str());
    out.append(" L ");
    append_coord(&mut out, input.width);
    out.append(" ");
    append_coord(&mut out, input.height - input.bottom_right_path_params.p);
    out.append(" ");
    out.append(br_cmds.as_str());
    out.append(" L ");
    append_coord(&mut out, input.bottom_left_path_params.p);
    out.append(" ");
    append_coord(&mut out, input.height);
    out.append(" ");
    out.append(bl_cmds.as_str());
    out.append(" L 0 ");
    append_coord(&mut out, input.top_left_path_params.p);
    out.append(" ");
    out.append(tl_cmds.as_str());
    out.append(" Z");
    proof {
        assert(out@ =~= path_model(
            input.width as int,
            input.height as int,
            input.top_left_path_params@,
            input.top_right_path_params@,
            input.bottom_right_path_params@,
            input.bottom_left_path_params@,
        ));
    }
    out
}

} // verus!
