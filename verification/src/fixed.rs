//! Fixed-point coordinates.
//!
//! Every coordinate in this library is an `i64` counted in subunits:
//! `SCALE` subunits make one mathematical unit. A bound on the
//! magnitude of a coordinate keeps every product taken by the screen
//! mapping inside `i64`.

use vstd::prelude::*;

verus! {

/// Subunits per mathematical unit: the fixed-point 1.
pub const SCALE: i64 = 65536;

/// Largest magnitude a coordinate may have.
pub const COORD_BOUND: i64 = 268435456;

/// A value small enough to be a coordinate: products of two such
/// values (and of their differences) stay well inside `i64`.
pub open spec fn in_range(v: int) -> bool {
    -COORD_BOUND <= v <= COORD_BOUND
}

/// The looser bound an ordinate may have: twice the coordinate bound,
/// room enough for the span of a whole rectangle, which the vertical
/// axis line uses as its extent.
pub open spec fn in_y_range(v: int) -> bool {
    -2 * COORD_BOUND <= v <= 2 * COORD_BOUND
}

/// Division that rounds toward zero, the rounding the screen mapping
/// uses. On a nonnegative numerator it agrees with Euclidean division.
pub open spec fn div_trunc(n: int, d: int) -> int
    recommends
        d >= 1,
{
    if n >= 0 {
        n / d
    } else {
        -((-n) / d)
    }
}

/// `(a * b) / d`, rounding toward zero, with the product taken exactly.
pub fn mul_div(a: i64, b: i64, d: i64) -> (r: i64)
    requires
        1 <= d,
        -0x4000_0000 <= a <= 0x4000_0000,
        -0x4000_0000 <= b <= 0x4000_0000,
    ensures
        r == div_trunc(a * b, d as int),
        -0x1000_0000_0000_0000 <= r <= 0x1000_0000_0000_0000,
{
    proof {
        assert(-0x1000_0000_0000_0000 <= a * b <= 0x1000_0000_0000_0000) by (nonlinear_arith)
            requires
                -0x4000_0000 <= a <= 0x4000_0000,
                -0x4000_0000 <= b <= 0x4000_0000,
        ;
    }
    let p: i64 = a * b;
    if p >= 0 {
        let q: i64 = p / d;
        proof {
            assert(0 <= p / d <= p) by (nonlinear_arith)
                requires
                    p >= 0,
                    d >= 1,
            ;
        }
        q
    } else {
        let n: i64 = -p;
        let q: i64 = n / d;
        proof {
            assert(0 <= n / d <= n) by (nonlinear_arith)
                requires
                    n >= 0,
                    d >= 1,
            ;
        }
        -q
    }
}

} // verus!
