//! The playfield's measures and the arithmetic the game is built on.
//!
//! Every length and every speed is a whole number of thousandths of a
//! playfield unit, so that the simulation is exact and the same on every
//! machine. A speed is a distance per tick.

use vstd::prelude::*;

verus! {

/// Thousandths in one playfield unit.
pub const UNIT: i64 = 1_000;

/// Height of the playfield.
pub const WINDOW_HEIGHT: i64 = 400_000;

/// Width of the playfield.
pub const WINDOW_WIDTH: i64 = 800_000;

/// Height of a paddle as it is drawn.
pub const PADDLE_HEIGHT: i64 = 200_000;

/// Width of a paddle as it is drawn.
pub const PADDLE_WIDTH: i64 = 40_000;

/// Distance a paddle travels in one tick.
pub const PADDLE_SPEED: i64 = 6_000;

/// Width of a teleporter zone.
pub const TELEPORTER_WIDTH: i64 = 300_000;

/// Height of a teleporter zone.
pub const TELEPORTER_HEIGHT: i64 = 5_000;

/// Whether `x` can be held in a coordinate.
pub open spec fn fits(x: int) -> bool {
    i64::MIN <= x <= i64::MAX
}

/// The absolute value of `x`.
pub open spec fn magnitude(x: int) -> int {
    if x < 0 {
        -x
    } else {
        x
    }
}

/// The smaller of `a` and `b`.
pub open spec fn lesser(a: int, b: int) -> int {
    if a <= b {
        a
    } else {
        b
    }
}

/// The larger of `a` and `b`.
pub open spec fn greater(a: int, b: int) -> int {
    if a >= b {
        a
    } else {
        b
    }
}

/// `x` brought into `[-bound, bound]`.
pub open spec fn clamped(x: int, bound: int) -> int {
    if x > bound {
        bound
    } else if x < -bound {
        -bound
    } else {
        x
    }
}

/// The quotient of `n` by a positive `d`, rounded toward zero.
pub open spec fn toward_zero(n: int, d: int) -> int {
    if n >= 0 {
        n / d
    } else {
        -((-n) / d)
    }
}

/// Rounding toward zero never moves a quotient away from zero, and a
/// quotient has the sign of its numerator or is zero.
pub proof fn lemma_toward_zero_sign(n: int, d: int)
    requires
        d > 0,
    ensures
        n >= 0 ==> 0 <= toward_zero(n, d) <= n,
        n <= 0 ==> n <= toward_zero(n, d) <= 0,
{
    if n >= 0 {
        assert(0 <= n / d <= n) by (nonlinear_arith)
            requires
                n >= 0,
                d > 0,
        ;
    } else {
        let m = -n;
        assert(0 <= m / d <= m) by (nonlinear_arith)
            requires
                m >= 0,
                d > 0,
        ;
    }
}

} // verus!
