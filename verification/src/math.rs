//! Integer arithmetic shared by the pricing rules: floor square root and
//! the facts about division that the reserve formulas rest on.

use vstd::prelude::*;

verus! {

/// `r` is the floor of the square root of `n`.
pub open spec fn is_floor_sqrt(n: nat, r: nat) -> bool {
    r * r <= n < (r + 1) * (r + 1)
}

/// The floor of the square root of `n`.
pub open spec fn isqrt(n: nat) -> nat {
    choose|r: nat| is_floor_sqrt(n, r)
}

/// The smaller of two naturals.
pub open spec fn min_nat(x: nat, y: nat) -> nat {
    if x <= y {
        x
    } else {
        y
    }
}

/// Every natural has a floor square root, so `isqrt(n)` is one.
pub proof fn lemma_isqrt_exists(n: nat)
    ensures
        is_floor_sqrt(n, isqrt(n)),
    decreases n,
{
    if n == 0 {
        assert(is_floor_sqrt(0, 0)) by (nonlinear_arith);
    } else {
        lemma_isqrt_exists((n - 1) as nat);
        let r = isqrt((n - 1) as nat);
        if n < (r + 1) * (r + 1) {
            assert(is_floor_sqrt(n, r));
        } else {
            assert(n == (r + 1) * (r + 1));
            assert((r + 1) * (r + 1) < (r + 2) * (r + 2)) by (nonlinear_arith);
            assert(is_floor_sqrt(n, r + 1));
        }
    }
}

/// A natural has at most one floor square root, so any `r` that brackets
/// `n` between `r * r` and `(r + 1) * (r + 1)` is `isqrt(n)`.
pub proof fn lemma_isqrt_unique(n: nat, r: nat)
    requires
        is_floor_sqrt(n, r),
    ensures
        isqrt(n) == r,
{
    let s = isqrt(n);
    lemma_isqrt_exists(n);
    if s < r {
        assert((s + 1) * (s + 1) <= r * r) by (nonlinear_arith)
            requires
                s + 1 <= r,
        ;
    } else if r < s {
        assert((r + 1) * (r + 1) <= s * s) by (nonlinear_arith)
            requires
                r + 1 <= s,
        ;
    }
}

/// One Newton step from an estimate `x` above the root lands on an estimate
/// that is still above the root.
proof fn lemma_newton_step_stays_above(n: nat, x: nat, y: nat)
    requires
        x > 0,
        y == (x + n / x) / 2,
    ensures
        n < (y + 1) * (y + 1),
{
    let q = n / x;
    assert(n < x * (q + 1)) by (nonlinear_arith)
        requires
            x > 0,
            q == n / x,
    ;
    assert(2 * (y + 1) >= x + q + 1);
    assert(4 * x * (q + 1) <= (x + q + 1) * (x + q + 1)) by (nonlinear_arith);
    assert((x + q + 1) * (x + q + 1) <= (2 * (y + 1)) * (2 * (y + 1))) by (nonlinear_arith)
        requires
            x + q + 1 <= 2 * (y + 1),
    ;
    assert((2 * (y + 1)) * (2 * (y + 1)) == 4 * ((y + 1) * (y + 1))) by (nonlinear_arith);
    assert(4 * n < 4 * x * (q + 1)) by (nonlinear_arith)
        requires
            n < x * (q + 1),
    ;
}

/// When a Newton step no longer descends, the estimate is at or below the root.
proof fn lemma_newton_fixpoint_is_below(n: nat, x: nat)
    requires
        x > 0,
        (x + n / x) / 2 >= x,
    ensures
        x * x <= n,
{
    let q = n / x;
    assert(q >= x);
    assert(x * q <= n) by (nonlinear_arith)
        requires
            x > 0,
            q == n / x,
    ;
    assert(x * x <= x * q) by (nonlinear_arith)
        requires
            x <= q,
    ;
}

/// The sum formed by a Newton step stays within the range of `n` for every
/// estimate between one and the rounded-up half of `n`.
proof fn lemma_newton_sum_fits(n: nat, x: nat)
    requires
        2 <= n,
        1 <= x <= n / 2 + n % 2,
        n < (x + 1) * (x + 1),
    ensures
        x + n / x <= n || x + n / x <= 4,
{
    if x == 1 {
        assert(n / 1 == n);
        assert((x + 1) * (x + 1) == 4) by (nonlinear_arith)
            requires
                x == 1,
        ;
    } else {
        assert(n / x <= n / 2) by (nonlinear_arith)
            requires
                2 <= x,
        ;
    }
}

/// The product of two 64-bit factors fits in 128 bits.
pub proof fn lemma_product_fits(x: nat, y: nat)
    requires
        x <= u64::MAX,
        y <= u64::MAX,
    ensures
        x * y <= 0xffff_ffff_ffff_fffe_0000_0000_0000_0001,
        x * y < u128::MAX,
{
    assert(x * y <= 0xffff_ffff_ffff_ffff * 0xffff_ffff_ffff_ffff) by (nonlinear_arith)
        requires
            x <= 0xffff_ffff_ffff_ffff,
            y <= 0xffff_ffff_ffff_ffff,
    ;
}

/// The exact product of two 64-bit factors.
pub fn mul_wide(x: u64, y: u64) -> (product: u128)
    ensures
        product == x as nat * y as nat,
{
    proof {
        lemma_product_fits(x as nat, y as nat);
    }
    (x as u128) * (y as u128)
}

/// Floor of the square root of `value`, by Newton's iteration from above.
pub fn integer_sqrt(value: u128) -> (root: u128)
    ensures
        root == isqrt(value as nat),
        is_floor_sqrt(value as nat, root as nat),
{
    if value < 2 {
        proof {
            let v = value as nat;
            assert(v * v <= v < (v + 1) * (v + 1)) by (nonlinear_arith)
                requires
                    v < 2,
            ;
            lemma_isqrt_unique(v, v);
        }
        return value;
    }
    let mut x: u128 = value;
    let mut y: u128 = value / 2 + value % 2;
    proof {
        assert(value / value == 1) by (nonlinear_arith)
            requires
                value >= 2,
        ;
        assert((value as nat + 1) * (value as nat + 1) > value) by (nonlinear_arith);
    }
    while y < x
        invariant
            2 <= value,
            1 <= x <= value,
            1 <= y <= value / 2 + value % 2,
            y == (x as nat + value as nat / x as nat) / 2,
            (value as nat) < (x as nat + 1) * (x as nat + 1),
        decreases x,
    {
        proof {
            lemma_newton_step_stays_above(value as nat, x as nat, y as nat);
            lemma_newton_sum_fits(value as nat, y as nat);
        }
        x = y;
        y = (x + value / x) / 2;
        proof {
            lemma_newton_step_stays_above(value as nat, x as nat, y as nat);
            assert(1 <= y) by {
                if y == 0 {
                    assert((y as nat + 1) * (y as nat + 1) == 1) by (nonlinear_arith)
                        requires
                            y == 0,
                    ;
                }
            }
            assert(y <= value / 2 + value % 2) by {
                // The step never rises above the half it started from.
                lemma_newton_sum_fits(value as nat, x as nat);
                if x >= 2 {
                    assert(value as nat / x as nat <= value as nat / 2) by (nonlinear_arith)
                        requires
                            2 <= x,
                    ;
                }
            }
        }
    }
    proof {
        lemma_newton_fixpoint_is_below(value as nat, x as nat);
        lemma_isqrt_unique(value as nat, x as nat);
    }
    x
}

} // verus!
