//! The fixed-point scale shared by every coordinate of the crate.

use vstd::prelude::*;

verus! {

/// Position units along one edge of a tile.
pub const UNIT: i64 = 65536;

/// Largest magnitude of a coordinate, of an extent and of a single
/// displacement that the collision resolver works on.
pub const COORD_LIMIT: i64 = 0x1000_0000_0000_0000;

/// Longest duration, in ticks, of a single step and of a timed motion.
pub const TIME_LIMIT: i64 = 0x1_0000_0000;

/// Index of the cell that holds coordinate `v`: the quotient rounded down.
pub open spec fn cell_of(v: int) -> int {
    v / (UNIT as int)
}

/// Index one past the last cell that a span ending at `v` reaches into: the
/// quotient rounded up. A span that ends exactly on a cell boundary does not
/// reach into the cell beyond it.
pub open spec fn cell_end(v: int) -> int {
    (v + UNIT - 1) / (UNIT as int)
}

/// A coordinate or an extent whose magnitude is within `COORD_LIMIT`.
pub open spec fn within_limit(v: int) -> bool {
    -COORD_LIMIT <= v <= COORD_LIMIT
}

/// The quotient of `a` by a positive `b`, rounded toward zero.
pub open spec fn toward_zero(a: int, b: int) -> int {
    if a >= 0 {
        a / b
    } else {
        -((-a) / b)
    }
}

/// A quotient rounded toward zero, multiplied back by no more than the
/// divisor, is no larger in magnitude than the dividend.
pub proof fn lemma_toward_zero_bound(a: int, b: int, m: int)
    requires
        0 < m <= b,
    ensures
        if a >= 0 {
            0 <= toward_zero(a, b) * m <= a
        } else {
            a <= toward_zero(a, b) * m <= 0
        },
        if a >= 0 {
            0 <= toward_zero(a, b) <= a
        } else {
            a <= toward_zero(a, b) <= 0
        },
{
    let n = if a >= 0 { a } else { -a };
    let q = n / b;
    vstd::arithmetic::div_mod::lemma_fundamental_div_mod(n, b);
    vstd::arithmetic::div_mod::lemma_div_pos_is_pos(n, b);
    assert(0 <= n % b < b);
    assert(b * q <= n);
    assert(0 <= q * m <= b * q) by (nonlinear_arith)
        requires
            0 <= q,
            0 < m <= b,
    ;
    assert(q <= q * m) by (nonlinear_arith)
        requires
            0 <= q,
            1 <= m,
    ;
    assert((-q) * m == -(q * m)) by (nonlinear_arith);
}

/// The quotient of `a` by a positive `b`, rounded toward zero.
pub fn div_toward_zero(a: i64, b: i64) -> (q: i64)
    requires
        b > 0,
    ensures
        q == toward_zero(a as int, b as int),
{
    proof {
        lemma_toward_zero_bound(a as int, b as int, 1);
    }
    a / b
}

/// A product is no larger in magnitude than the product of bounds on its
/// factors.
pub proof fn lemma_product_bound(a: int, b: int, la: int, lb: int)
    by (nonlinear_arith)
    requires
        -la <= a <= la,
        -lb <= b <= lb,
    ensures
        -(la * lb) <= a * b <= la * lb,
{
}

/// The cell that holds coordinate `v`.
pub fn floor_cell(v: i64) -> (c: i64)
    ensures
        c == cell_of(v as int),
{
    if v >= 0 {
        v / UNIT
    } else {
        -((-(v + 1)) / UNIT) - 1
    }
}

/// One past the last cell that a span ending at `v` reaches into.
pub fn ceil_cell(v: i64) -> (c: i64)
    requires
        v + UNIT - 1 <= i64::MAX,
    ensures
        c == cell_end(v as int),
{
    floor_cell(v + (UNIT - 1))
}

/// Whether moving at `velocity` for `ticks` stays within `COORD_LIMIT`.
pub fn displacement_fits(velocity: i64, ticks: i64) -> (ok: bool)
    ensures
        ok == within_limit(velocity * ticks),
{
    proof {
        lemma_product_bound(
            velocity as int,
            ticks as int,
            0x8000_0000_0000_0000,
            0x8000_0000_0000_0000,
        );
    }
    let product: i128 = (velocity as i128) * (ticks as i128);
    -(COORD_LIMIT as i128) <= product && product <= COORD_LIMIT as i128
}

} // verus!
