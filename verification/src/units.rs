use vstd::prelude::*;

verus! {

/// One whole unit (`1.0`) in fixed-point micro-units.
pub const UNIT: i64 = 1_000_000;

/// Largest magnitude any stored micro-unit value may take.  The bound keeps
/// every product with `UNIT` inside `i64`, so all scaling arithmetic below is
/// proved free of overflow.
pub const VAL_LIMIT: i64 = 1_000_000_000_000;

/// `x` clamped into `[lo, hi]`.
pub open spec fn spec_clamp(lo: int, hi: int, x: int) -> int {
    if x < lo {
        lo
    } else if x > hi {
        hi
    } else {
        x
    }
}

/// `x` lies within the storage bound.
pub open spec fn in_limit(x: int) -> bool {
    -VAL_LIMIT <= x <= VAL_LIMIT
}

/// `x * frac / UNIT`, truncated toward zero.
pub open spec fn spec_scale(x: int, frac: int) -> int {
    if x >= 0 {
        (x * frac) / (UNIT as int)
    } else {
        -(((-x) * frac) / (UNIT as int))
    }
}

/// Linear interpolation from `a` (at `frac == 0`) to `b` (at `frac == UNIT`).
pub open spec fn spec_lerp(a: int, b: int, frac: int) -> int {
    a + spec_scale(b - a, frac)
}

pub fn clamp_value(lo: i64, hi: i64, x: i64) -> (r: i64)
    requires
        lo <= hi,
    ensures
        r == spec_clamp(lo as int, hi as int, x as int),
        lo <= r <= hi,
{
    if x < lo {
        lo
    } else if x > hi {
        hi
    } else {
        x
    }
}

proof fn lemma_scale_in_range(x: int, frac: int)
    requires
        0 <= frac <= UNIT,
        0 <= x,
    ensures
        0 <= (x * frac) / (UNIT as int) <= x,
{
    assert(0 <= x * frac) by (nonlinear_arith)
        requires 0 <= x && 0 <= frac;
    assert(x * frac <= x * UNIT) by (nonlinear_arith)
        requires 0 <= x && frac <= UNIT;
    assert(0 <= (x * frac) / (UNIT as int)) by (nonlinear_arith)
        requires 0 <= x * frac;
    assert((x * frac) / (UNIT as int) <= (x * (UNIT as int)) / (UNIT as int)) by (nonlinear_arith)
        requires x * frac <= x * UNIT && 0 < UNIT;
    assert((x * (UNIT as int)) / (UNIT as int) == x) by (nonlinear_arith);
}

/// `x * frac / UNIT`, truncated toward zero, for a fraction in `[0, UNIT]`.
pub fn scale_by_frac(x: i64, frac: i64) -> (r: i64)
    requires
        0 <= frac <= UNIT,
        -2 * VAL_LIMIT <= x <= 2 * VAL_LIMIT,
    ensures
        r == spec_scale(x as int, frac as int),
        x >= 0 ==> 0 <= r <= x,
        x < 0 ==> x <= r <= 0,
{
    if x >= 0 {
        proof {
            lemma_scale_in_range(x as int, frac as int);
            assert(x * frac <= 2 * (VAL_LIMIT as int) * (UNIT as int)) by (nonlinear_arith)
                requires 0 <= x <= 2 * (VAL_LIMIT as int) && 0 <= frac <= UNIT;
        }
        (x * frac) / UNIT
    } else {
        let neg = -x;
        proof {
            lemma_scale_in_range(neg as int, frac as int);
            assert(neg * frac <= 2 * (VAL_LIMIT as int) * (UNIT as int)) by (nonlinear_arith)
                requires 0 <= neg <= 2 * (VAL_LIMIT as int) && 0 <= frac <= UNIT;
        }
        -((neg * frac) / UNIT)
    }
}

/// Interpolates from `a` (at `frac == 0`) to `b` (at `frac == UNIT`); the
/// result stays between `a` and `b`.
pub fn lerp(a: i64, b: i64, frac: i64) -> (r: i64)
    requires
        0 <= frac <= UNIT,
        in_limit(a as int),
        in_limit(b as int),
    ensures
        r == spec_lerp(a as int, b as int, frac as int),
        a <= b ==> a <= r <= b,
        b < a ==> b <= r <= a,
        in_limit(r as int),
{
    let step = scale_by_frac(b - a, frac);
    a + step
}

} // verus!
