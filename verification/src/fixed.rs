//! Saturating fixed-point arithmetic over an `i128` mantissa.
//!
//! A `Fixed` value stands for the real number `mantissa / SCALE`. All
//! operations round toward zero and saturate at `±MAX_MANTISSA`, so they are
//! total: no input makes them overflow or panic. The exact result of every
//! operation is stated by the `fx_*` spec functions below.

use vstd::prelude::*;

verus! {

/// Number of mantissa ticks in one unit of real value: nine fractional
/// decimal digits.
pub const SCALE: i128 = 1_000_000_000;

/// Largest mantissa magnitude a `Fixed` may carry (a real magnitude of one
/// billion); arithmetic saturates here.
pub const MAX_MANTISSA: i128 = 1_000_000_000_000_000_000;

/// Pull a mantissa into the representable range, saturating at the bounds.
pub open spec fn clip(x: int) -> int {
    if x > MAX_MANTISSA as int {
        MAX_MANTISSA as int
    } else if x < -(MAX_MANTISSA as int) {
        -(MAX_MANTISSA as int)
    } else {
        x
    }
}

/// Division by `SCALE` rounding toward zero, matching the executable
/// magnitude-then-sign computation.
pub open spec fn scale_div_trunc(x: int) -> int {
    if x >= 0 {
        x / (SCALE as int)
    } else {
        -((-x) / (SCALE as int))
    }
}

/// Exact meaning of saturating fixed-point addition.
pub open spec fn fx_add(a: int, b: int) -> int {
    clip(a + b)
}

/// Exact meaning of saturating fixed-point subtraction.
pub open spec fn fx_sub(a: int, b: int) -> int {
    clip(a - b)
}

/// Exact meaning of saturating fixed-point multiplication.
pub open spec fn fx_mul(a: int, b: int) -> int {
    clip(scale_div_trunc(a * b))
}

/// Floor of the square root of a natural number.
pub open spec fn isqrt(n: nat) -> nat
    decreases n,
{
    if n == 0 {
        0
    } else {
        let r = isqrt((n - 1) as nat);
        if (r + 1) * (r + 1) <= n {
            r + 1
        } else {
            r
        }
    }
}

/// Exact meaning of the fixed-point square root: for a mantissa `a` standing
/// for `a / SCALE`, the root's mantissa is `isqrt(a * SCALE)`, since
/// `sqrt(a / SCALE) == isqrt(a * SCALE) / SCALE` up to flooring. Non-positive
/// inputs map to zero.
pub open spec fn fx_sqrt(a: int) -> int {
    if a <= 0 {
        0
    } else {
        isqrt((a * (SCALE as int)) as nat) as int
    }
}

/// `isqrt(n)` is the floor of the square root: its square is at most `n` and
/// the next square is beyond `n`.
pub proof fn lemma_isqrt_bounds(n: nat)
    ensures
        isqrt(n) * isqrt(n) <= n,
        n < (isqrt(n) + 1) * (isqrt(n) + 1),
    decreases n,
{
    if n == 0 {
        assert(isqrt(0) == 0);
        assert((isqrt(n) + 1) * (isqrt(n) + 1) == 1) by (nonlinear_arith)
            requires
                isqrt(n) == 0;
    } else {
        let r = isqrt((n - 1) as nat);
        lemma_isqrt_bounds((n - 1) as nat);
        assert(r * r <= n - 1);
        assert(n - 1 < (r + 1) * (r + 1));
        if (r + 1) * (r + 1) <= n {
            assert(isqrt(n) == r + 1);
            assert(n <= (r + 1) * (r + 1));
            assert((r + 1) * (r + 1) < (r + 2) * (r + 2)) by (nonlinear_arith);
            assert(n < (r + 2) * (r + 2));
            assert(isqrt(n) * isqrt(n) <= n);
            assert(n < (isqrt(n) + 1) * (isqrt(n) + 1));
        } else {
            assert(isqrt(n) == r);
            assert(isqrt(n) * isqrt(n) <= n);
            assert(n < (isqrt(n) + 1) * (isqrt(n) + 1));
        }
    }
}

/// A natural number whose square brackets `n` is the floor square root of `n`.
pub proof fn lemma_isqrt_unique(n: nat, r: nat)
    requires
        r * r <= n,
        n < (r + 1) * (r + 1),
    ensures
        r == isqrt(n),
{
    let s = isqrt(n);
    lemma_isqrt_bounds(n);
    assert(s <= r) by (nonlinear_arith)
        requires
            s * s <= n,
            n < (r + 1) * (r + 1),
            s >= 0,
            r >= 0;
    assert(r <= s) by (nonlinear_arith)
        requires
            r * r <= n,
            n < (s + 1) * (s + 1),
            s >= 0,
            r >= 0;
}

proof fn lemma_neg_mul(x: int, y: int)
    by (nonlinear_arith)
    ensures
        (-x) * y == -(x * y),
        x * (-y) == -(x * y),
        (-x) * (-y) == x * y,
{
}

pub(crate) proof fn lemma_mul_le(x: int, y: int, xb: int, yb: int)
    by (nonlinear_arith)
    requires
        0 <= x <= xb,
        0 <= y <= yb,
    ensures
        x * y <= xb * yb,
{
}

/// A real number held as `m / SCALE` with `|m| <= MAX_MANTISSA`.
#[derive(Clone, Copy, Debug, PartialEq, Eq, Structural)]
pub struct Fixed {
    m: i128,
}

impl View for Fixed {
    type V = int;

    closed spec fn view(&self) -> int {
        self.m as int
    }
}

impl Fixed {
    #[verifier::type_invariant]
    spec fn inv(self) -> bool {
        -(MAX_MANTISSA as int) <= self.m as int <= MAX_MANTISSA as int
    }

    /// Build a value from a raw mantissa (in ticks of `1 / SCALE`),
    /// saturating at the representable bounds.
    pub fn from_scaled(m: i128) -> (r: Fixed)
        ensures
            r@ == clip(m as int),
    {
        if m > MAX_MANTISSA {
            Fixed { m: MAX_MANTISSA }
        } else if m < -MAX_MANTISSA {
            Fixed { m: -MAX_MANTISSA }
        } else {
            Fixed { m }
        }
    }

    /// Build a value from an integer number of units.
    pub fn from_int(i: i64) -> (r: Fixed)
        ensures
            r@ == clip((i as int) * (SCALE as int)),
    {
        let wide: i128 = (i as i128) * SCALE;
        Fixed::from_scaled(wide)
    }

    pub fn zero() -> (r: Fixed)
        ensures
            r@ == 0,
    {
        Fixed { m: 0 }
    }

    /// The raw mantissa: the represented real number is `mantissa / SCALE`.
    pub fn mantissa(&self) -> (m: i128)
        ensures
            m as int == self@,
    {
        proof {
            use_type_invariant(self);
        }
        self.m
    }

    /// Saturating addition.
    pub fn sat_add(self, rhs: Fixed) -> (r: Fixed)
        ensures
            r@ == fx_add(self@, rhs@),
    {
        proof {
            use_type_invariant(&self);
            use_type_invariant(&rhs);
        }
        let sum: i128 = self.m + rhs.m;
        Fixed::from_scaled(sum)
    }

    /// Saturating subtraction.
    pub fn sat_sub(self, rhs: Fixed) -> (r: Fixed)
        ensures
            r@ == fx_sub(self@, rhs@),
    {
        proof {
            use_type_invariant(&self);
            use_type_invariant(&rhs);
        }
        let diff: i128 = self.m - rhs.m;
        Fixed::from_scaled(diff)
    }

    /// Saturating multiplication, rounding toward zero: the product of the
    /// mantissa magnitudes is divided by `SCALE` and the sign reapplied.
    pub fn sat_mul(self, rhs: Fixed) -> (r: Fixed)
        ensures
            r@ == fx_mul(self@, rhs@),
    {
        proof {
            use_type_invariant(&self);
            use_type_invariant(&rhs);
        }
        let a: i128 = self.m;
        let b: i128 = rhs.m;
        let am: u128 = if a < 0 {
            (-a) as u128
        } else {
            a as u128
        };
        let bm: u128 = if b < 0 {
            (-b) as u128
        } else {
            b as u128
        };
        proof {
            lemma_mul_le(am as int, bm as int, MAX_MANTISSA as int, MAX_MANTISSA as int);
        }
        let prod: u128 = am * bm;
        let q: u128 = prod / (SCALE as u128);
        let neg: bool = (a < 0) != (b < 0);
        let out: i128 = if q > (MAX_MANTISSA as u128) {
            if neg {
                -MAX_MANTISSA
            } else {
                MAX_MANTISSA
            }
        } else {
            if neg {
                -(q as i128)
            } else {
                q as i128
            }
        };
        proof {
            let ai = a as int;
            let bi = b as int;
            lemma_neg_mul(ai, bi);
            lemma_neg_mul(-ai, bi);
            assert(am as int * (bm as int) >= 0);
            if ai >= 0 && bi >= 0 {
                assert(ai * bi == (am as int) * (bm as int));
            } else if ai < 0 && bi < 0 {
                assert(ai * bi == (am as int) * (bm as int));
            } else {
                assert(ai * bi == -((am as int) * (bm as int)));
            }
            assert(q as int == (am as int) * (bm as int) / (SCALE as int));
            assert(out as int == clip(scale_div_trunc(ai * bi)));
        }
        Fixed { m: out }
    }

    /// Fixed-point square root, rounding down. Only defined on non-negative
    /// values; within this crate it is applied to variances, which the
    /// simulator's flooring policy keeps non-negative.
    pub fn sqrt_floor(self) -> (r: Fixed)
        requires
            self@ >= 0,
        ensures
            r@ == fx_sqrt(self@),
            r@ >= 0,
    {
        proof {
            use_type_invariant(&self);
        }
        if self.m == 0 {
            return Fixed { m: 0 };
        }
        proof {
            lemma_mul_le(self.m as int, SCALE as int, MAX_MANTISSA as int, SCALE as int);
        }
        let y: u128 = (self.m as u128) * (SCALE as u128);
        let root: u128 = isqrt_u128(y);
        proof {
            assert(root as int <= MAX_MANTISSA as int) by (nonlinear_arith)
                requires
                    (root as int) * (root as int) <= y as int,
                    y as int <= (MAX_MANTISSA as int) * (SCALE as int),
                    root as int >= 0;
        }
        Fixed { m: root as i128 }
    }

    /// Divide a non-negative value by a positive step count, rounding down.
    pub fn div_by_count(self, n: usize) -> (r: Fixed)
        requires
            self@ >= 0,
            n > 0,
        ensures
            r@ == self@ / (n as int),
            r@ >= 0,
    {
        proof {
            use_type_invariant(&self);
            vstd::arithmetic::div_mod::lemma_div_nonincreasing(self.m as int, n as int);
        }
        let q: u128 = (self.m as u128) / (n as u128);
        Fixed { m: q as i128 }
    }
}

/// Floor of the square root of `y`, by bisection on the root.
fn isqrt_u128(y: u128) -> (r: u128)
    requires
        (y as int) < 0x4000_0000_0000_0000_0000_0000_0000_0000,
    ensures
        (r as int) * (r as int) <= y as int,
        (y as int) < (r as int + 1) * (r as int + 1),
        r as nat == isqrt(y as nat),
{
    let mut lo: u128 = 0;
    let mut hi: u128 = 0x8000_0000_0000_0000;
    proof {
        assert((hi as int) * (hi as int) == 0x4000_0000_0000_0000_0000_0000_0000_0000)
            by (nonlinear_arith)
            requires
                hi as int == 0x8000_0000_0000_0000;
    }
    while lo + 1 < hi
        invariant
            (lo as int) * (lo as int) <= y as int,
            (y as int) < (hi as int) * (hi as int),
            lo < hi,
            hi <= 0x8000_0000_0000_0000,
        decreases hi as int - lo as int,
    {
        let mid: u128 = lo + (hi - lo) / 2;
        proof {
            lemma_mul_le(mid as int, mid as int, 0x8000_0000_0000_0000, 0x8000_0000_0000_0000);
        }
        if mid * mid <= y {
            lo = mid;
        } else {
            hi = mid;
        }
    }
    proof {
        lemma_isqrt_unique(y as nat, lo as nat);
    }
    lo
}

} // verus!
