//! Easing curves: how a value travels from its start to its end over a
//! duration.

use vstd::prelude::*;
use crate::units::{within_limit, COORD_LIMIT, TIME_LIMIT};

verus! {

/// A transition curve. `curve(t, b, c, d)` is the value at time `t` of a
/// transition that starts at `b`, changes by `c` in all and lasts `d`.
///
/// An implementation starts at `b`, ends at `b + c`, and for a change that
/// is not negative stays between the two on the way.
pub trait Easing {
    /// The value at time `t`.
    spec fn curve(&self, t: int, b: int, c: int, d: int) -> int;

    /// The curve starts at `b` and ends at `b + c`.
    proof fn lemma_curve_ends(&self, b: int, c: int, d: int)
        requires
            d > 0,
        ensures
            self.curve(0, b, c, d) == b,
            self.curve(d, b, c, d) == b + c,
    ;

    /// Between its ends the curve does not leave the span from `b` to
    /// `b + c`.
    proof fn lemma_curve_range(&self, t: int, b: int, c: int, d: int)
        requires
            d > 0,
            0 <= t <= d,
            c >= 0,
        ensures
            b <= self.curve(t, b, c, d) <= b + c,
    ;

    /// Computes the curve.
    fn ease(&self, t: i64, b: i64, c: i64, d: i64) -> (r: i64)
        requires
            0 < d <= TIME_LIMIT,
            0 <= t <= d,
            0 <= c <= COORD_LIMIT,
            within_limit(b as int),
        ensures
            r == self.curve(t as int, b as int, c as int, d as int),
    ;
}

/// Quadratic ease-out: fast at first, slowing to a stop at the end.
#[derive(Debug, Clone, Copy, PartialEq, Eq, Structural)]
pub struct QuadOut {}

/// Constant speed from start to end.
#[derive(Debug, Clone, Copy, PartialEq, Eq, Structural)]
pub struct Linear {}

/// `b + c * t * (2d - t) / d^2`, the quotient rounded down.
pub open spec fn quad_out(t: int, b: int, c: int, d: int) -> int {
    b + (c * (t * (2 * d - t))) / (d * d)
}

/// `b + c * t / d`, the quotient rounded down.
pub open spec fn linear(t: int, b: int, c: int, d: int) -> int {
    b + (c * t) / d
}

/// For `0 <= w <= n`, the share `c * w / n` of a `c` that is not negative
/// lies between 0 and `c`, and is all of `c` when `w` is `n`.
proof fn lemma_share(c: int, w: int, n: int)
    requires
        c >= 0,
        n > 0,
        0 <= w <= n,
    ensures
        0 <= (c * w) / n <= c,
        (c * 0) / n == 0,
        (c * n) / n == c,
{
    assert(0 <= c * w <= c * n) by (nonlinear_arith)
        requires
            c >= 0,
            0 <= w <= n,
    ;
    assert(c * 0 == 0);
    vstd::arithmetic::div_mod::lemma_div_multiples_vanish(c, n);
    assert(c * n == n * c) by (nonlinear_arith);
    vstd::arithmetic::div_mod::lemma_div_is_ordered(0, c * w, n);
    vstd::arithmetic::div_mod::lemma_div_is_ordered(c * w, c * n, n);
}

/// For `0 <= t <= d`, the weight `t * (2d - t)` lies between 0 and `d^2`.
proof fn lemma_quad_weight(t: int, d: int)
    by (nonlinear_arith)
    requires
        d > 0,
        0 <= t <= d,
    ensures
        0 <= t * (2 * d - t) <= d * d,
        d * (2 * d - d) == d * d,
        0 * (2 * d - 0) == 0,
        d * d > 0,
{
}

impl Easing for QuadOut {
    open spec fn curve(&self, t: int, b: int, c: int, d: int) -> int {
        quad_out(t, b, c, d)
    }

    proof fn lemma_curve_ends(&self, b: int, c: int, d: int) {
        lemma_quad_weight(0, d);
        lemma_quad_weight(d, d);
        assert(c * (0 * (2 * d - 0)) == 0) by (nonlinear_arith);
        assert(c * (d * (2 * d - d)) == (d * d) * c) by (nonlinear_arith);
        vstd::arithmetic::div_mod::lemma_div_multiples_vanish(c, d * d);
    }

    proof fn lemma_curve_range(&self, t: int, b: int, c: int, d: int) {
        lemma_quad_weight(t, d);
        lemma_share(c, t * (2 * d - t), d * d);
    }

    fn ease(&self, t: i64, b: i64, c: i64, d: i64) -> (r: i64) {
        proof {
            lemma_quad_weight(t as int, d as int);
            lemma_share(c as int, t * (2 * d - t), d * d);
            assert(d * d <= 0x1_0000_0000 * 0x1_0000_0000) by (nonlinear_arith)
                requires
                    0 < d <= 0x1_0000_0000,
            ;
            assert(0 <= c * (t * (2 * d - t)) <= 0x1000_0000_0000_0000 * (0x1_0000_0000
                * 0x1_0000_0000)) by (nonlinear_arith)
                requires
                    0 <= c <= 0x1000_0000_0000_0000,
                    0 <= t * (2 * d - t) <= d * d,
                    d * d <= 0x1_0000_0000 * 0x1_0000_0000,
            ;
        }
        let wide_t: i128 = t as i128;
        let wide_d: i128 = d as i128;
        let weight: i128 = wide_t * (2 * wide_d - wide_t);
        let span: i128 = wide_d * wide_d;
        let share: i128 = ((c as i128) * weight) / span;
        b + (share as i64)
    }
}

impl Easing for Linear {
    open spec fn curve(&self, t: int, b: int, c: int, d: int) -> int {
        linear(t, b, c, d)
    }

    proof fn lemma_curve_ends(&self, b: int, c: int, d: int) {
        assert(c * 0 == 0);
        assert(c * d == d * c) by (nonlinear_arith);
        vstd::arithmetic::div_mod::lemma_div_multiples_vanish(c, d);
    }

    proof fn lemma_curve_range(&self, t: int, b: int, c: int, d: int) {
        lemma_share(c, t, d);
    }

    fn ease(&self, t: i64, b: i64, c: i64, d: i64) -> (r: i64) {
        proof {
            lemma_share(c as int, t as int, d as int);
            assert(0 <= c * t <= 0x1000_0000_0000_0000 * 0x1_0000_0000) by (nonlinear_arith)
                requires
                    0 <= c <= 0x1000_0000_0000_0000,
                    0 <= t <= 0x1_0000_0000,
            ;
        }
        let share: i128 = ((c as i128) * (t as i128)) / (d as i128);
        b + (share as i64)
    }
}

} // verus!
