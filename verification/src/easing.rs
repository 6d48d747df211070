//! Easing curves: pure maps from normalized time to normalized progress.
//!
//! Both run in the fixed-point scale of [`PROGRESS_SCALE`]: an input of
//! `PROGRESS_SCALE` stands for 1.0. Every curve maps `0` to `0` and
//! `PROGRESS_SCALE` to `PROGRESS_SCALE`, and stays inside `[0, PROGRESS_SCALE]`
//! on that domain. The sine family uses Bhaskara's rational approximation of
//! the sine, which is exact at both endpoints.

use crate::math::{
    lemma_balanced_product_bound, lemma_cube_le, lemma_div_le_bound, lemma_mul_le, lemma_sq_le,
};
use crate::PROGRESS_SCALE;
use vstd::prelude::*;

verus! {

/// The catalog of named easing curves.
#[derive(Clone, Copy, Debug, PartialEq, Eq, Structural)]
pub enum Easing {
    /// Progress equals time.
    Linear,
    /// Quadratic, accelerating from zero velocity.
    QuadIn,
    /// Quadratic, decelerating to zero velocity.
    QuadOut,
    /// Quadratic acceleration until halfway, then deceleration.
    QuadInOut,
    /// Cubic, accelerating from zero velocity.
    CubicIn,
    /// Cubic, decelerating to zero velocity.
    CubicOut,
    /// Cubic acceleration until halfway, then deceleration.
    CubicInOut,
    /// Sinusoidal, accelerating from zero velocity.
    SineIn,
    /// Sinusoidal, decelerating to zero velocity.
    SineOut,
    /// Sinusoidal acceleration until halfway, then deceleration.
    SineInOut,
}

/// Fixed-point `sin(p * pi / 2)` for `p` in `[0, PROGRESS_SCALE]`, by
/// Bhaskara's approximation `sin(pi x) == 16 x (1 - x) / (5 - 4 x (1 - x))`
/// with `x == p / 2`.
pub open spec fn sine_out_spec(p: int) -> int
    recommends
        0 <= p <= PROGRESS_SCALE,
{
    let s = PROGRESS_SCALE as int;
    let x = p / 2;
    let n = x * (s - x);
    (16 * n * s) / (5 * s * s - 4 * n)
}

/// What each easing curve yields at fixed-point time `p`.
pub open spec fn eval_spec(e: Easing, p: int) -> int
    recommends
        0 <= p <= PROGRESS_SCALE,
{
    let s = PROGRESS_SCALE as int;
    match e {
        Easing::Linear => p,
        Easing::QuadIn => (p * p) / s,
        Easing::QuadOut => s - ((s - p) * (s - p)) / s,
        Easing::QuadInOut => if p < s / 2 {
            (2 * (p * p)) / s
        } else {
            s - (2 * ((s - p) * (s - p))) / s
        },
        Easing::CubicIn => (p * p * p) / (s * s),
        Easing::CubicOut => s - ((s - p) * (s - p) * (s - p)) / (s * s),
        Easing::CubicInOut => if p < s / 2 {
            (4 * (p * p * p)) / (s * s)
        } else {
            s - (4 * ((s - p) * (s - p) * (s - p))) / (s * s)
        },
        Easing::SineIn => s - sine_out_spec(s - p),
        Easing::SineOut => sine_out_spec(p),
        Easing::SineInOut => (sine_out_spec(p) * sine_out_spec(p)) / s,
    }
}

/// The sine-out curve stays inside `[0, PROGRESS_SCALE]`.
proof fn lemma_sine_out_range(p: int)
    requires
        0 <= p <= PROGRESS_SCALE,
    ensures
        0 <= sine_out_spec(p) <= PROGRESS_SCALE,
{
    let s = PROGRESS_SCALE as int;
    let x = p / 2;
    lemma_balanced_product_bound(x, s);
    let n = x * (s - x);
    lemma_div_le_bound(16 * n * s, s, 5 * s * s - 4 * n);
}

/// Every easing curve stays inside `[0, PROGRESS_SCALE]` on the fixed-point
/// time domain `[0, PROGRESS_SCALE]`.
pub proof fn lemma_eval_in_range(e: Easing, p: int)
    requires
        0 <= p <= PROGRESS_SCALE,
    ensures
        0 <= eval_spec(e, p) <= PROGRESS_SCALE,
{
    let s = PROGRESS_SCALE as int;
    match e {
        Easing::Linear => {},
        Easing::QuadIn => {
            lemma_sq_le(p, s);
            lemma_div_le_bound(p * p, s, s);
        },
        Easing::QuadOut => {
            lemma_sq_le(s - p, s);
            lemma_div_le_bound((s - p) * (s - p), s, s);
        },
        Easing::QuadInOut => {
            if p < s / 2 {
                lemma_sq_le(p, s / 2);
                lemma_div_le_bound(2 * (p * p), s, s);
            } else {
                lemma_sq_le(s - p, s / 2);
                lemma_div_le_bound(2 * ((s - p) * (s - p)), s, s);
            }
        },
        Easing::CubicIn => {
            lemma_cube_le(p, s);
            lemma_div_le_bound(p * p * p, s, s * s);
        },
        Easing::CubicOut => {
            lemma_cube_le(s - p, s);
            lemma_div_le_bound((s - p) * (s - p) * (s - p), s, s * s);
        },
        Easing::CubicInOut => {
            if p < s / 2 {
                lemma_cube_le(p, s / 2);
                lemma_div_le_bound(4 * (p * p * p), s, s * s);
            } else {
                lemma_cube_le(s - p, s / 2);
                lemma_div_le_bound(4 * ((s - p) * (s - p) * (s - p)), s, s * s);
            }
        },
        Easing::SineIn => {
            lemma_sine_out_range(s - p);
        },
        Easing::SineOut => {
            lemma_sine_out_range(p);
        },
        Easing::SineInOut => {
            lemma_sine_out_range(p);
            lemma_sq_le(sine_out_spec(p), s);
            lemma_div_le_bound(sine_out_spec(p) * sine_out_spec(p), s, s);
        },
    }
}

/// Every easing curve maps time `0` to progress `0` and full time to full
/// progress.
pub proof fn lemma_eval_endpoints(e: Easing)
    ensures
        eval_spec(e, 0) == 0,
        eval_spec(e, PROGRESS_SCALE as int) == PROGRESS_SCALE,
{
    let s = PROGRESS_SCALE as int;
    assert(sine_out_spec(0) == 0) by {
        assert((0 as int) / 2 == 0);
        assert(0 * (s - 0) == 0);
    }
    assert(sine_out_spec(s) == s) by {
        assert(s / 2 == 500_000);
        assert(500_000 * (s - 500_000) == 250_000_000_000);
        assert(16 * 250_000_000_000 * s == 4_000_000_000_000_000_000);
        assert(5 * s * s - 4 * 250_000_000_000 == 4_000_000_000_000);
        assert(4_000_000_000_000_000_000int / 4_000_000_000_000int == s);
    }
    match e {
        Easing::Linear => {},
        Easing::QuadIn => {
            assert((s * s) / s == s);
        },
        Easing::QuadOut => {
            assert(((s - s) * (s - s)) / s == 0);
        },
        Easing::QuadInOut => {
            assert((2 * ((0 as int) * 0)) / s == 0);
            assert(s - (2 * ((s - s) * (s - s))) / s == s);
        },
        Easing::CubicIn => {
            assert(((0 as int) * 0 * 0) / (s * s) == 0);
            assert((s * s * s) / (s * s) == s);
        },
        Easing::CubicOut => {
            assert(((s - s) * (s - s) * (s - s)) / (s * s) == 0);
            assert((s * s * s) / (s * s) == s);
        },
        Easing::CubicInOut => {
            assert((4 * ((0 as int) * 0 * 0)) / (s * s) == 0);
            assert(s - (4 * ((s - s) * (s - s) * (s - s))) / (s * s) == s);
        },
        Easing::SineIn => {},
        Easing::SineOut => {},
        Easing::SineInOut => {
            assert((0 as int) * 0 / s == 0);
            assert((s * s) / s == s);
        },
    }
}

/// Fixed-point sine-out, the executable form of [`sine_out_spec`].
fn sine_out(p: u64) -> (r: u64)
    requires
        p <= PROGRESS_SCALE,
    ensures
        r == sine_out_spec(p as int),
        r <= PROGRESS_SCALE,
{
    let x: u64 = p / 2;
    proof {
        lemma_balanced_product_bound(x as int, PROGRESS_SCALE as int);
    }
    let n: u64 = x * (PROGRESS_SCALE - x);
    let num: u64 = 16 * n * PROGRESS_SCALE;
    let den: u64 = 5 * PROGRESS_SCALE * PROGRESS_SCALE - 4 * n;
    proof {
        lemma_sine_out_range(p as int);
    }
    num / den
}

/// Evaluate an easing curve at fixed-point time `p`.
pub fn eval(e: Easing, p: u64) -> (r: u64)
    requires
        p <= PROGRESS_SCALE,
    ensures
        r == eval_spec(e, p as int),
        r <= PROGRESS_SCALE,
{
    proof {
        lemma_eval_in_range(e, p as int);
    }
    match e {
        Easing::Linear => p,
        Easing::QuadIn => {
            proof {
                lemma_sq_le(p as int, PROGRESS_SCALE as int);
            }
            (p * p) / PROGRESS_SCALE
        },
        Easing::QuadOut => {
            proof {
                lemma_sq_le(PROGRESS_SCALE - p, PROGRESS_SCALE as int);
                lemma_div_le_bound(
                    ((PROGRESS_SCALE - p) * (PROGRESS_SCALE - p)) as int,
                    PROGRESS_SCALE as int,
                    PROGRESS_SCALE as int,
                );
            }
            PROGRESS_SCALE - ((PROGRESS_SCALE - p) * (PROGRESS_SCALE - p)) / PROGRESS_SCALE
        },
        Easing::QuadInOut => {
            if p < PROGRESS_SCALE / 2 {
                proof {
                    lemma_sq_le(p as int, (PROGRESS_SCALE / 2) as int);
                }
                (2 * (p * p)) / PROGRESS_SCALE
            } else {
                proof {
                    lemma_sq_le(PROGRESS_SCALE - p, (PROGRESS_SCALE / 2) as int);
                    lemma_div_le_bound(
                        (2 * ((PROGRESS_SCALE - p) * (PROGRESS_SCALE - p))) as int,
                        PROGRESS_SCALE as int,
                        PROGRESS_SCALE as int,
                    );
                }
                PROGRESS_SCALE - (2 * ((PROGRESS_SCALE - p) * (PROGRESS_SCALE - p)))
                    / PROGRESS_SCALE
            }
        },
        Easing::CubicIn => {
            proof {
                lemma_sq_le(p as int, PROGRESS_SCALE as int);
                lemma_mul_le(
                    (p * p) as int,
                    (PROGRESS_SCALE * PROGRESS_SCALE) as int,
                    p as int,
                );
            }
            (p * p * p) / (PROGRESS_SCALE * PROGRESS_SCALE)
        },
        Easing::CubicOut => {
            let q = PROGRESS_SCALE - p;
            proof {
                lemma_sq_le(q as int, PROGRESS_SCALE as int);
                lemma_mul_le(
                    (q * q) as int,
                    (PROGRESS_SCALE * PROGRESS_SCALE) as int,
                    q as int,
                );
                lemma_div_le_bound(
                    (q * q * q) as int,
                    PROGRESS_SCALE as int,
                    (PROGRESS_SCALE * PROGRESS_SCALE) as int,
                );
            }
            PROGRESS_SCALE - (q * q * q) / (PROGRESS_SCALE * PROGRESS_SCALE)
        },
        Easing::CubicInOut => {
            if p < PROGRESS_SCALE / 2 {
                proof {
                    lemma_sq_le(p as int, (PROGRESS_SCALE / 2) as int);
                    lemma_mul_le(
                        (p * p) as int,
                        ((PROGRESS_SCALE / 2) * (PROGRESS_SCALE / 2)) as int,
                        p as int,
                    );
                }
                (4 * (p * p * p)) / (PROGRESS_SCALE * PROGRESS_SCALE)
            } else {
                let q = PROGRESS_SCALE - p;
                proof {
                    lemma_sq_le(q as int, (PROGRESS_SCALE / 2) as int);
                    lemma_mul_le(
                        (q * q) as int,
                        ((PROGRESS_SCALE / 2) * (PROGRESS_SCALE / 2)) as int,
                        q as int,
                    );
                    lemma_div_le_bound(
                        (4 * (q * q * q)) as int,
                        PROGRESS_SCALE as int,
                        (PROGRESS_SCALE * PROGRESS_SCALE) as int,
                    );
                }
                PROGRESS_SCALE - (4 * (q * q * q)) / (PROGRESS_SCALE * PROGRESS_SCALE)
            }
        },
        Easing::SineIn => {
            let r = sine_out(PROGRESS_SCALE - p);
            PROGRESS_SCALE - r
        },
        Easing::SineOut => sine_out(p),
        Easing::SineInOut => {
            let r = sine_out(p);
            proof {
                lemma_sq_le(r as int, PROGRESS_SCALE as int);
            }
            (r * r) / PROGRESS_SCALE
        },
    }
}

} // verus!
