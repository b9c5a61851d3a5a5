//! Squircle outlines for rounded rectangles.
//!
//! Given a rectangle, up to four corner radii and a smoothing factor, the
//! library computes the parameters of a composite cubic-Bezier / arc /
//! cubic-Bezier curve for each corner and renders the outline as a path
//! string. All scalars are fixed-point integers (see [`fixed`]), so every
//! step of the computation carries an exact contract.

pub mod fixed;
pub mod trig;
pub mod draw;
pub mod distribute;
pub mod text;

use vstd::prelude::*;
use crate::fixed::{div_trunc, FX_ONE, FX_MAX};
use crate::draw::{
    CornerParams, CurveModel, SvgPathInput, get_path_params_for_corner,
    get_svg_path_from_path_params, solve_model, path_model,
};
use crate::distribute::{
    RoundedRectangle, dist_model, distribute_and_normalize, lemma_dist_model_conserves,
};

verus! {

/// Mathematical model of a configuration.
pub struct ConfigModel {
    pub width: int,
    pub height: int,
    pub corner_radius: Option<int>,
    pub top_left_corner_radius: Option<int>,
    pub top_right_corner_radius: Option<int>,
    pub bottom_right_corner_radius: Option<int>,
    pub bottom_left_corner_radius: Option<int>,
    pub corner_smoothing: int,
    pub preserve_smoothing: bool,
}

/// The outline's configuration: dimensions, a shared corner radius with
/// optional per-corner overrides, the smoothing factor and the strategy
/// for radius/budget conflicts. Built with the chained setters below.
#[derive(Debug)]
pub struct FigmaSquircleParams {
    pub width: i64,
    pub height: i64,
    pub corner_radius: Option<i64>,
    pub top_left_corner_radius: Option<i64>,
    pub top_right_corner_radius: Option<i64>,
    pub bottom_right_corner_radius: Option<i64>,
    pub bottom_left_corner_radius: Option<i64>,
    pub corner_smoothing: i64,
    pub preserve_smoothing: bool,
}

impl View for FigmaSquircleParams {
    type V = ConfigModel;

    open spec fn view(&self) -> ConfigModel {
        ConfigModel {
            width: self.width as int,
            height: self.height as int,
            corner_radius: crate::distribute::opt_int(self.corner_radius),
            top_left_corner_radius: crate::distribute::opt_int(self.top_left_corner_radius),
            top_right_corner_radius: crate::distribute::opt_int(self.top_right_corner_radius),
            bottom_right_corner_radius: crate::distribute::opt_int(self.bottom_right_corner_radius),
            bottom_left_corner_radius: crate::distribute::opt_int(self.bottom_left_corner_radius),
            corner_smoothing: self.corner_smoothing as int,
            preserve_smoothing: self.preserve_smoothing,
        }
    }
}

impl Default for FigmaSquircleParams {
    /// A zero-sized rectangle with no radii set, full smoothing and the
    /// budget-limiting conflict strategy.
    fn default() -> (r: Self)
        ensures
            r.width == 0,
            r.height == 0,
            r.corner_radius is None,
            r.top_left_corner_radius is None,
            r.top_right_corner_radius is None,
            r.bottom_right_corner_radius is None,
            r.bottom_left_corner_radius is None,
            r.corner_smoothing == FX_ONE,
            r.preserve_smoothing == false,
    {
        Self {
            width: 0,
            height: 0,
            corner_radius: None,
            top_left_corner_radius: None,
            top_right_corner_radius: None,
            bottom_right_corner_radius: None,
            bottom_left_corner_radius: None,
            corner_smoothing: FX_ONE,
            preserve_smoothing: false,
        }
    }
}

impl FigmaSquircleParams {
    pub fn width(self, width: i64) -> (r: Self)
        ensures
            r == (FigmaSquircleParams { width, ..self }),
    {
        Self { width, ..self }
    }

    pub fn height(self, height: i64) -> (r: Self)
        ensures
            r == (FigmaSquircleParams { height, ..self }),
    {
        Self { height, ..self }
    }

    pub fn size(self, size: i64) -> (r: Self)
        ensures
            r == (FigmaSquircleParams { width: size, height: size, ..self }),
    {
        Self { width: size, height: size, ..self }
    }

    pub fn corner_radius(self, corner_radius: i64) -> (r: Self)
        ensures
            r == (FigmaSquircleParams { corner_radius: Some(corner_radius), ..self }),
    {
        Self { corner_radius: Some(corner_radius), ..self }
    }

    pub fn top_left_corner_radius(self, corner_radius: i64) -> (r: Self)
        ensures
            r == (FigmaSquircleParams { top_left_corner_radius: Some(corner_radius), ..self }),
    {
        Self { top_left_corner_radius: Some(corner_radius), ..self }
    }

    pub fn top_right_corner_radius(self, corner_radius: i64) -> (r: Self)
        ensures
            r == (FigmaSquircleParams { top_right_corner_radius: Some(corner_radius), ..self }),
    {
        Self { top_right_corner_radius: Some(corner_radius), ..self }
    }

    pub fn bottom_left_corner_radius(self, corner_radius: i64) -> (r: Self)
        ensures
            r == (FigmaSquircleParams { bottom_left_corner_radius: Some(corner_radius), ..self }),
    {
        Self { bottom_left_corner_radius: Some(corner_radius), ..self }
    }

    pub fn bottom_right_corner_radius(self, corner_radius: i64) -> (r: Self)
        ensures
            r == (FigmaSquircleParams { bottom_right_corner_radius: Some(corner_radius), ..self }),
    {
        Self { bottom_right_corner_radius: Some(corner_radius), ..self }
    }

    pub fn corner_smoothing(self, corner_smoothing: i64) -> (r: Self)
        ensures
            r == (FigmaSquircleParams { corner_smoothing, ..self }),
    {
        Self { corner_smoothing, ..self }
    }

    pub fn preserve_smoothing(self, preserve_smoothing: bool) -> (r: Self)
        ensures
            r == (FigmaSquircleParams { preserve_smoothing, ..self }),
    {
        Self { preserve_smoothing, ..self }
    }
}

/// An explicit per-corner radius, or the shared fallback.
pub open spec fn resolved_radius(explicit: Option<int>, fallback: int) -> int {
    match explicit {
        Some(v) => v,
        None => fallback,
    }
}

/// The four per-corner radii after defaulting, in the order top-left,
/// top-right, bottom-left, bottom-right.
pub open spec fn resolved_radii(cfg: ConfigModel) -> (int, int, int, int) {
    let cr = match cfg.corner_radius {
        Some(v) => v,
        None => 0,
    };
    (
        resolved_radius(cfg.top_left_corner_radius, cr),
        resolved_radius(cfg.top_right_corner_radius, cr),
        resolved_radius(cfg.bottom_left_corner_radius, cr),
        resolved_radius(cfg.bottom_right_corner_radius, cr),
    )
}

/// A configuration the library accepts: dimensions, radii and smoothing
/// within range. Negative values and smoothing past one are rejected by
/// precondition rather than fed through the arithmetic.
pub open spec fn params_valid(cfg: ConfigModel) -> bool {
    &&& 0 <= cfg.width <= FX_MAX
    &&& 0 <= cfg.height <= FX_MAX
    &&& 0 <= cfg.corner_smoothing <= FX_ONE
    &&& (cfg.corner_radius is Some ==> 0 <= cfg.corner_radius->0 <= FX_MAX)
    &&& (cfg.top_left_corner_radius is Some ==> 0 <= cfg.top_left_corner_radius->0 <= FX_MAX)
    &&& (cfg.top_right_corner_radius is Some ==> 0 <= cfg.top_right_corner_radius->0 <= FX_MAX)
    &&& (cfg.bottom_right_corner_radius is Some ==> 0 <= cfg.bottom_right_corner_radius->0
        <= FX_MAX)
    &&& (cfg.bottom_left_corner_radius is Some ==> 0 <= cfg.bottom_left_corner_radius->0 <= FX_MAX)
}

/// The four corners' curve models, in the order top-left, top-right,
/// bottom-left, bottom-right. With four equal resolved radii one shared
/// curve, solved against the budget `min(width, height) / 2`, serves all
/// corners; otherwise the distributor assigns each corner its budget.
pub open spec fn corner_curve_models(cfg: ConfigModel) -> (CurveModel, CurveModel, CurveModel, CurveModel) {
    let (tl, tr, bl, br) = resolved_radii(cfg);
    if tl == tr && tr == br && br == bl && bl == tl {
        let budget = (if cfg.width <= cfg.height {
            cfg.width
        } else {
            cfg.height
        }) / 2;
        let radius = if tl <= budget {
            tl
        } else {
            budget
        };
        let m = solve_model(radius, cfg.corner_smoothing, cfg.preserve_smoothing, budget);
        (m, m, m, m)
    } else {
        let nm = dist_model(tl, tr, bl, br, cfg.width, cfg.height);
        (
            solve_model(
                nm.top_left.radius,
                cfg.corner_smoothing,
                cfg.preserve_smoothing,
                nm.top_left.rounding_and_smoothing_budget,
            ),
            solve_model(
                nm.top_right.radius,
                cfg.corner_smoothing,
                cfg.preserve_smoothing,
                nm.top_right.rounding_and_smoothing_budget,
            ),
            solve_model(
                nm.bottom_left.radius,
                cfg.corner_smoothing,
                cfg.preserve_smoothing,
                nm.bottom_left.rounding_and_smoothing_budget,
            ),
            solve_model(
                nm.bottom_right.radius,
                cfg.corner_smoothing,
                cfg.preserve_smoothing,
                nm.bottom_right.rounding_and_smoothing_budget,
            ),
        )
    }
}

/// The path string the library returns for a configuration. The output
/// is a function of the configuration alone: two calls on equal
/// configurations return the same string.
pub open spec fn svg_path_model(cfg: ConfigModel) -> Seq<char> {
    let (mtl, mtr, mbl, mbr) = corner_curve_models(cfg);
    path_model(cfg.width, cfg.height, mtl, mtr, mbr, mbl)
}

/// With four equal resolved radii the shared curve is reused: the four
/// corners' parameters are identical, so on a square every corner is
/// drawn the same.
pub proof fn lemma_equal_radii_symmetry(cfg: ConfigModel)
    requires
        ({
            let (tl, tr, bl, br) = resolved_radii(cfg);
            tl == tr && tr == br && br == bl
        }),
    ensures
        ({
            let (mtl, mtr, mbl, mbr) = corner_curve_models(cfg);
            mtl == mtr && mtr == mbl && mbl == mbr
        }),
{
}

/// The uniform fast path's shared budget is half the smaller dimension:
/// two opposite corners together never claim more than a full side.
pub proof fn lemma_uniform_budget(w: int, h: int)
    requires
        0 <= w,
        0 <= h,
    ensures
        ({
            let budget = (if w <= h {
                w
            } else {
                h
            }) / 2;
            &&& 0 <= budget
            &&& 2 * budget <= w
            &&& 2 * budget <= h
        }),
{
    let m = if w <= h {
        w
    } else {
        h
    };
    vstd::arithmetic::div_mod::lemma_fundamental_div_mod(m, 2);
    vstd::arithmetic::div_mod::lemma_mod_bound(m, 2);
    vstd::arithmetic::div_mod::lemma_div_pos_is_pos(m, 2);
}

/// The uniform fast path: one curve, solved against half the smaller
/// dimension, serves all four corners.
#[verifier::rlimit(100)]
fn uniform_svg_path(params: FigmaSquircleParams, tl_radius: i64) -> (r: String)
    requires
        params_valid(params@),
        ({
            let (tl, tr, bl, br) = resolved_radii(params@);
            tl == tl_radius && tr == tl_radius && bl == tl_radius && br == tl_radius
        }),
    ensures
        r@ == svg_path_model(params@),
{
    let smaller: i64 = if params.width <= params.height {
        params.width
    } else {
        params.height
    };
    let budget: i64 = div_trunc(smaller, 2);
    proof {
        lemma_uniform_budget(params.width as int, params.height as int);
    }
    let radius: i64 = if tl_radius <= budget {
        tl_radius
    } else {
        budget
    };
    let path_params = get_path_params_for_corner(CornerParams {
        corner_radius: radius,
        corner_smoothing: params.corner_smoothing,
        preserve_smoothing: params.preserve_smoothing,
        rounding_and_smoothing_budget: budget,
    });
    get_svg_path_from_path_params(SvgPathInput {
        width: params.width,
        height: params.height,
        top_right_path_params: &path_params,
        bottom_right_path_params: &path_params,
        bottom_left_path_params: &path_params,
        top_left_path_params: &path_params,
    })
}

/// The general path: the distributor assigns each corner a budget, then
/// each corner's curve is solved against its own budget.
#[verifier::rlimit(100)]
fn distributed_svg_path(
    params: FigmaSquircleParams,
    tl_radius: i64,
    tr_radius: i64,
    bl_radius: i64,
    br_radius: i64,
) -> (r: String)
    requires
        params_valid(params@),
        ({
            let (tl, tr, bl, br) = resolved_radii(params@);
            &&& tl == tl_radius && tr == tr_radius && bl == bl_radius && br == br_radius
            &&& 0 <= tl_radius <= FX_MAX
            &&& 0 <= tr_radius <= FX_MAX
            &&& 0 <= bl_radius <= FX_MAX
            &&& 0 <= br_radius <= FX_MAX
            &&& !(tl == tr && tr == br && br == bl && bl == tl)
        }),
    ensures
        r@ == svg_path_model(params@),
{
    proof {
        lemma_dist_model_conserves(
            tl_radius as int,
            tr_radius as int,
            bl_radius as int,
            br_radius as int,
            params.width as int,
            params.height as int,
        );
    }
    let nm = distribute_and_normalize(RoundedRectangle {
        top_left_corner_radius: tl_radius,
        top_right_corner_radius: tr_radius,
        bottom_right_corner_radius: br_radius,
        bottom_left_corner_radius: bl_radius,
        width: params.width,
        height: params.height,
    });
    let tl_params = get_path_params_for_corner(CornerParams {
        corner_radius: nm.top_left.radius,
        corner_smoothing: params.corner_smoothing,
        preserve_smoothing: params.preserve_smoothing,
        rounding_and_smoothing_budget: nm.top_left.rounding_and_smoothing_budget,
    });
    let tr_params = get_path_params_for_corner(CornerParams {
        corner_radius: nm.top_right.radius,
        corner_smoothing: params.corner_smoothing,
        preserve_smoothing: params.preserve_smoothing,
        rounding_and_smoothing_budget: nm.top_right.rounding_and_smoothing_budget,
    });
    let br_params = get_path_params_for_corner(CornerParams {
        corner_radius: nm.bottom_right.radius,
        corner_smoothing: params.corner_smoothing,
        preserve_smoothing: params.preserve_smoothing,
        rounding_and_smoothing_budget: nm.bottom_right.rounding_and_smoothing_budget,
    });
    let bl_params = get_path_params_for_corner(CornerParams {
        corner_radius: nm.bottom_left.radius,
        corner_smoothing: params.corner_smoothing,
        preserve_smoothing: params.preserve_smoothing,
        rounding_and_smoothing_budget: nm.bottom_left.rounding_and_smoothing_budget,
    });
    get_svg_path_from_path_params(SvgPathInput {
        width: params.width,
        height: params.height,
        top_left_path_params: &tl_params,
        top_right_path_params: &tr_params,
        bottom_right_path_params: &br_params,
        bottom_left_path_params: &bl_params,
    })
}

/// Computes the outline's path string for a configuration.
///
/// Unset per-corner radii fall back to the shared `corner_radius`. With
/// four equal resolved radii the distributor is bypassed and one solved
/// corner serves all four; otherwise each corner gets its own budget and
/// curve. The result is exactly [`svg_path_model`] of the configuration.
pub fn get_svg_path(params: FigmaSquircleParams) -> (r: String)
    requires
        params_valid(params@),
    ensures
        r@ == svg_path_model(params@),
{
    let corner_radius: i64 = match params.corner_radius {
        Some(v) => v,
        None => 0,
    };
    let tl_radius: i64 = match params.top_left_corner_radius {
        Some(v) => v,
        None => corner_radius,
    };
    let tr_radius: i64 = match params.top_right_corner_radius {
        Some(v) => v,
        None => corner_radius,
    };
    let br_radius: i64 = match params.bottom_right_corner_radius {
        Some(v) => v,
        None => corner_radius,
    };
    let bl_radius: i64 = match params.bottom_left_corner_radius {
        Some(v) => v,
        None => corner_radius,
    };
    if tl_radius == tr_radius && tr_radius == br_radius && br_radius == bl_radius && bl_radius
        == tl_radius {
        uniform_svg_path(params, tl_radius)
    } else {
        distributed_svg_path(params, tl_radius, tr_radius, bl_radius, br_radius)
    }
}

} // verus!
