//! Aspect-ratio preserving size computation.
//!
//! Given the source image's dimensions and a single prescribed output
//! dimension, the other dimension is the nearest integer that keeps the
//! source's aspect ratio, clamped into `1..=u32::MAX`.

use vstd::prelude::*;
use crate::config::ResizeTarget;

verus! {

/// `a / b` rounded to the nearest integer (half rounds up), for `b > 0`.
pub open spec fn round_div(a: int, b: int) -> int
    recommends
        b > 0,
{
    (2 * a + b) / (2 * b)
}

/// Clamps a computed dimension into the representable range `1..=u32::MAX`.
pub open spec fn clamp_dim(v: int) -> int {
    if v < 1 {
        1
    } else if v > u32::MAX {
        u32::MAX as int
    } else {
        v
    }
}

/// The output size for a source of `w0 x h0` pixels under `target`: the
/// prescribed dimension is kept (clamped to at least 1), and the free one is
/// the aspect-ratio match of the prescribed one, rounded to the nearest
/// integer and clamped.
pub open spec fn fit_size(w0: int, h0: int, target: ResizeTarget) -> (int, int)
    recommends
        w0 >= 1,
        h0 >= 1,
{
    match target {
        ResizeTarget::Width(tw) => {
            let nw = clamp_dim(tw as int);
            (nw, clamp_dim(round_div(h0 * nw, w0)))
        },
        ResizeTarget::Height(th) => {
            let nh = clamp_dim(th as int);
            (clamp_dim(round_div(w0 * nh, h0)), nh)
        },
    }
}

/// Bounds on the rounded quotient: it misses the exact ratio by at most half
/// a unit of `b`, and never exceeds `a`.
pub proof fn lemma_round_div_bounds(a: int, b: int)
    requires
        a >= 0,
        b >= 1,
    ensures
        -b <= 2 * a - 2 * round_div(a, b) * b < b,
        0 <= round_div(a, b) <= a,
{
    let q = round_div(a, b);
    let r = (2 * a + b) % (2 * b);
    vstd::arithmetic::div_mod::lemma_fundamental_div_mod(2 * a + b, 2 * b);
    vstd::arithmetic::div_mod::lemma_mod_bound(2 * a + b, 2 * b);
    assert(-b <= 2 * a - 2 * q * b < b) by (nonlinear_arith)
        requires
            2 * a + b == 2 * b * q + r,
            0 <= r < 2 * b,
            b >= 1,
    ;
    assert(0 <= q <= a) by (nonlinear_arith)
        requires
            2 * a + b == 2 * b * q + r,
            0 <= r < 2 * b,
            b >= 1,
            a >= 0,
    ;
}

/// Rounds `(x * y) / b` to the nearest integer in executable code; exact
/// relative to `round_div`. The intermediate products fit easily in `u128`.
fn round_div_mul(x: u32, y: u32, b: u32) -> (r: u64)
    requires
        b >= 1,
    ensures
        r == round_div((x as int) * (y as int), b as int),
{
    proof {
        vstd::arithmetic::mul::lemma_mul_upper_bound(
            x as int,
            u32::MAX as int,
            y as int,
            u32::MAX as int,
        );
    }
    let a: u128 = (x as u128) * (y as u128);
    let num: u128 = 2 * a + (b as u128);
    let den: u128 = 2 * (b as u128);
    let q: u128 = num / den;
    proof {
        lemma_round_div_bounds((x as int) * (y as int), b as int);
    }
    q as u64
}

/// Clamps a computed dimension into `1..=u32::MAX`; exact relative to
/// `clamp_dim`.
fn clamp_dim_exec(v: u64) -> (r: u32)
    ensures
        r == clamp_dim(v as int),
{
    if v < 1 {
        1
    } else if v > u32::MAX as u64 {
        u32::MAX
    } else {
        v as u32
    }
}

/// Computes the output dimensions for a `w0 x h0` source under `target`,
/// exactly as `fit_size` states them. Both results lie in `1..=u32::MAX`.
pub fn fit_dimensions(w0: u32, h0: u32, target: ResizeTarget) -> (r: (u32, u32))
    requires
        w0 >= 1,
        h0 >= 1,
    ensures
        (r.0 as int, r.1 as int) == fit_size(w0 as int, h0 as int, target),
        r.0 >= 1,
        r.1 >= 1,
{
    match target {
        ResizeTarget::Width(tw) => {
            let nw: u32 = clamp_dim_exec(tw as u64);
            let free: u64 = round_div_mul(h0, nw, w0);
            (nw, clamp_dim_exec(free))
        },
        ResizeTarget::Height(th) => {
            let nh: u32 = clamp_dim_exec(th as u64);
            let free: u64 = round_div_mul(w0, nh, h0);
            (clamp_dim_exec(free), nh)
        },
    }
}

/// The free dimension preserves the aspect ratio within integer rounding:
/// with the height prescribed, the computed width `nw` keeps
/// `nw / nh` within half a unit of `w0 / h0`, i.e.
/// `-h0 <= 2*w0*nh - 2*nw*h0 < h0`, whenever no clamping interferes.
pub proof fn lemma_aspect_ratio_height(w0: int, h0: int, th: int)
    requires
        w0 >= 1,
        h0 >= 1,
        th >= 1,
        th <= u32::MAX,
        1 <= round_div(w0 * th, h0) <= u32::MAX,
    ensures
        ({
            let nw = fit_size(w0, h0, ResizeTarget::Height(th as u32)).0;
            let nh = fit_size(w0, h0, ResizeTarget::Height(th as u32)).1;
            nh == th && -h0 <= 2 * w0 * nh - 2 * nw * h0 < h0
        }),
{
    lemma_round_div_bounds(w0 * th, h0);
    assert(2 * w0 * th == 2 * (w0 * th)) by (nonlinear_arith);
}

/// The symmetric statement with the width prescribed: the computed height
/// `nh` keeps `nw / nh` within half a unit of `w0 / h0`.
pub proof fn lemma_aspect_ratio_width(w0: int, h0: int, tw: int)
    requires
        w0 >= 1,
        h0 >= 1,
        tw >= 1,
        tw <= u32::MAX,
        1 <= round_div(h0 * tw, w0) <= u32::MAX,
    ensures
        ({
            let nw = fit_size(w0, h0, ResizeTarget::Width(tw as u32)).0;
            let nh = fit_size(w0, h0, ResizeTarget::Width(tw as u32)).1;
            nw == tw && -w0 <= 2 * h0 * nw - 2 * nh * w0 < w0
        }),
{
    lemma_round_div_bounds(h0 * tw, w0);
    assert(2 * h0 * tw == 2 * (h0 * tw)) by (nonlinear_arith);
}

/// Refitting an image to its own height (or width) is the identity: the
/// aspect-ratio computation gives back the original dimensions.
pub proof fn lemma_refit_identity(w: u32, h: u32)
    requires
        w >= 1,
        h >= 1,
    ensures
        fit_size(w as int, h as int, ResizeTarget::Height(h)) == (w as int, h as int),
        fit_size(w as int, h as int, ResizeTarget::Width(w)) == (w as int, h as int),
{
    assert((2 * ((w as int) * (h as int)) + h as int) / (2 * (h as int)) == w as int)
        by (nonlinear_arith)
        requires
            w >= 1,
            h >= 1,
    ;
    assert((2 * ((h as int) * (w as int)) + w as int) / (2 * (w as int)) == h as int)
        by (nonlinear_arith)
        requires
            w >= 1,
            h >= 1,
    ;
}

} // verus!
