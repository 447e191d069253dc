//! Fixed-point helpers for the quadratic-funding formula.
//!
//! Values are scaled by `SCALE` (10^9); roots are computed as an integer
//! square root followed by one first-order (Newton) correction term.
use vstd::prelude::*;

verus! {

/// Fixed-point scaling factor.
pub const SCALE: i128 = 1_000_000_000;

/// Largest integer whose square does not exceed `v` (0 for `v <= 0`).
pub open spec fn isqrt(v: int) -> int
    decreases v,
{
    if v <= 0 {
        0
    } else {
        let r = isqrt(v - 1);
        if (r + 1) * (r + 1) <= v {
            r + 1
        } else {
            r
        }
    }
}

/// The scaled root: `isqrt(v) * SCALE` plus the linear correction
/// `(v - isqrt(v)^2) * SCALE / (2 * isqrt(v))`; zero for `v <= 0`.
pub open spec fn sqrt_scaled_spec(v: int) -> int {
    if v <= 0 {
        0
    } else {
        let r = isqrt(v);
        r * SCALE + ((v - r * r) * SCALE) / (2 * r)
    }
}

/// Truncating division by `SCALE`.
pub open spec fn unscale_spec(v: int) -> int {
    if v >= 0 {
        v / SCALE as int
    } else {
        -((-v) / SCALE as int)
    }
}

/// `isqrt` is the integer square root.
pub proof fn lemma_isqrt(v: int)
    requires
        v >= 0,
    ensures
        0 <= isqrt(v),
        isqrt(v) * isqrt(v) <= v,
        v < (isqrt(v) + 1) * (isqrt(v) + 1),
    decreases v,
{
    if v > 0 {
        lemma_isqrt(v - 1);
        let r = isqrt(v - 1);
        assert((r + 1) * (r + 1) < (r + 2) * (r + 2)) by (nonlinear_arith)
            requires
                r >= 0,
        ;
    }
}

proof fn lemma_square_monotone(a: int, b: int)
    requires
        0 <= a <= b,
    ensures
        a * a <= b * b,
{
    assert(a * a <= a * b) by (nonlinear_arith)
        requires
            0 <= a <= b,
    ;
    assert(a * b <= b * b) by (nonlinear_arith)
        requires
            0 <= a <= b,
    ;
}

/// The integer square root is the only non-negative `r` with
/// `r^2 <= v < (r + 1)^2`.
pub proof fn lemma_isqrt_unique(r: int, v: int)
    requires
        0 <= r,
        r * r <= v,
        v < (r + 1) * (r + 1),
    ensures
        r == isqrt(v),
{
    lemma_isqrt(v);
    let s = isqrt(v);
    if r < s {
        lemma_square_monotone(r + 1, s);
    } else if s < r {
        lemma_square_monotone(s + 1, r);
    }
}

/// Scaled square root: `sqrt(value) * SCALE`, approximated as the integer
/// root plus one linear correction step. Returns 0 for `value <= 0` and
/// exactly `SCALE` for `value == 1`.
pub fn sqrt_scaled(value: i128) -> (r: i128)
    ensures
        r == sqrt_scaled_spec(value as int),
        0 <= r <= MAX_SCALED_ROOT,
{
    if value <= 0 {
        return 0;
    }
    if value == 1 {
        proof {
            lemma_isqrt_unique(1, 1);
        }
        return SCALE;
    }
    let mut low: i128 = 0;
    let mut high: i128 = value;
    proof {
        assert(value < (value + 1) * (value + 1)) by (nonlinear_arith)
            requires
                value >= 2,
        ;
    }
    while low < high
        invariant
            0 <= low <= high <= value,
            low * low <= value,
            value < (high + 1) * (high + 1),
        decreases high - low,
    {
        // the upper midpoint, written so that no intermediate overflows
        let gap: i128 = high - low;
        let mid: i128 = low + gap / 2 + gap % 2;
        let fits = match mid.checked_mul(mid) {
            Some(sq) => sq <= value,
            None => false,
        };
        if fits {
            low = mid;
        } else {
            high = mid - 1;
        }
    }
    proof {
        lemma_isqrt_unique(low as int, value as int);
        // low < 2^64, since (2^64)^2 exceeds every i128
        if low >= 18_446_744_073_709_551_616 {
            lemma_square_monotone(18_446_744_073_709_551_616, low as int);
        }
        assert(low >= 1) by (nonlinear_arith)
            requires
                value < (low + 1) * (low + 1),
                value >= 2,
                low >= 0,
        ;
        assert(value - low * low <= 2 * low) by (nonlinear_arith)
            requires
                value < (low + 1) * (low + 1),
        ;
    }
    let integer_part: i128 = low * SCALE;
    let low_squared: i128 = low * low;
    let diff: i128 = value - low_squared;
    let denominator: i128 = low * 2;
    let remainder: i128 = (diff * SCALE) / denominator;
    proof {
        assert(remainder <= SCALE) by (nonlinear_arith)
            requires
                remainder as int == (diff as int * SCALE as int) / (denominator as int),
                0 <= diff <= denominator,
                denominator >= 2,
                SCALE == 1_000_000_000,
        ;
    }
    integer_part + remainder
}

/// Divides a scaled value by `SCALE`, truncating toward zero.
pub fn unscale(value: i128) -> (r: i128)
    ensures
        r == unscale_spec(value as int),
{
    value / SCALE
}

/// Multiplies a value by `SCALE`.
pub fn scale(value: i128) -> (r: i128)
    requires
        i128::MIN <= value * SCALE <= i128::MAX,
    ensures
        r == value * SCALE,
{
    value * SCALE
}

/// Sum of the scaled roots of the amounts; amounts `<= 0` add nothing.
pub open spec fn sum_roots(amounts: Seq<i128>) -> int
    decreases amounts.len(),
{
    if amounts.len() == 0 {
        0
    } else {
        sum_roots(amounts.drop_last()) + sqrt_scaled_spec(amounts.last() as int)
    }
}

/// `x * x`, saturated at `i128::MAX`.
pub open spec fn saturating_square(x: int) -> int {
    if x * x > i128::MAX {
        i128::MAX as int
    } else {
        x * x
    }
}

/// The quadratic-funding match `(Σ sqrt(a_i))^2` in scaled arithmetic: the
/// squared root sum, saturated, then unscaled once for each factor.
pub open spec fn quadratic_match_spec(amounts: Seq<i128>) -> int {
    unscale_spec(unscale_spec(saturating_square(sum_roots(amounts))))
}

/// Upper bound on one scaled root (`2^64 * SCALE`).
pub const MAX_SCALED_ROOT: i128 = 18_446_744_073_709_551_616_000_000_000;

/// The quadratic-funding match of the given contributions.
pub fn quadratic_match(amounts: &[i128]) -> (r: i128)
    requires
        amounts@.len() <= u32::MAX,
    ensures
        r == quadratic_match_spec(amounts@),
        r >= 0,
{
    let mut sum: i128 = 0;
    let mut i: usize = 0;
    while i < amounts.len()
        invariant
            i <= amounts@.len() <= u32::MAX,
            sum == sum_roots(amounts@.subrange(0, i as int)),
            0 <= sum <= i * MAX_SCALED_ROOT,
        decreases amounts@.len() - i,
    {
        let root = sqrt_scaled(amounts[i]);
        proof {
            assert(amounts@.subrange(0, i + 1).drop_last() =~= amounts@.subrange(0, i as int));
            assert(sum + root <= (i + 1) * MAX_SCALED_ROOT <= u32::MAX * MAX_SCALED_ROOT)
                by (nonlinear_arith)
                requires
                    sum <= i * MAX_SCALED_ROOT,
                    root <= MAX_SCALED_ROOT,
                    i + 1 <= u32::MAX,
                    MAX_SCALED_ROOT > 0,
            ;
        }
        sum = sum + root;
        i = i + 1;
    }
    proof {
        assert(amounts@.subrange(0, amounts@.len() as int) =~= amounts@);
    }
    let squared: i128 = match sum.checked_mul(sum) {
        Some(sq) => sq,
        None => i128::MAX,
    };
    proof {
        assert(sum * sum >= 0) by (nonlinear_arith);
    }
    unscale(unscale(squared))
}

} // verus!
