//! Fixed-point math for quadratic staking: an integer square root by Newton's
//! (Babylonian) method, and checked arithmetic that fails loudly instead of
//! wrapping.
//!
//! The executable `sqrt_fixed` mirrors the settlement-path algorithm exactly:
//! an initial guess of `x / 2`, at most twenty Newton steps, stop as soon as
//! the iterate no longer decreases. The iterate stays at or above
//! `isqrt(x)` throughout, and within the iteration cap it reaches `isqrt(x)`
//! exactly for every input up to [`SQRT_EXACT_INPUT_MAX`]; the contracts state
//! both facts.

use vstd::prelude::*;
use vstd::arithmetic::div_mod::{
    lemma_div_is_ordered, lemma_div_is_ordered_by_denominator, lemma_div_multiples_vanish,
    lemma_fundamental_div_mod, lemma_hoist_over_denominator, lemma_mod_bound,
};
use vstd::arithmetic::power2::{lemma2_to64, lemma_pow2_pos, lemma_pow2_unfold, pow2};

use crate::errors::ICBError;

verus! {

/// Fixed-point precision (9 decimals).
pub const PRECISION: u64 = 1_000_000_000;

/// Largest input for which the capped Newton iteration is proven to have
/// converged, so that `sqrt_fixed` returns exactly `isqrt(x)`.
pub const SQRT_EXACT_INPUT_MAX: u64 = 1_048_576;

/// Mathematical floor of the square root of `n`.
pub open spec fn isqrt(n: nat) -> nat
    decreases n,
{
    if n == 0 {
        0
    } else {
        let p = isqrt((n - 1) as nat);
        if (p + 1) * (p + 1) <= n {
            p + 1
        } else {
            p
        }
    }
}

/// `isqrt(n)` is the unique integer whose square is at most `n` and whose
/// successor's square exceeds `n`.
pub proof fn lemma_isqrt_bounds(n: nat)
    ensures
        isqrt(n) * isqrt(n) <= n,
        n < (isqrt(n) + 1) * (isqrt(n) + 1),
    decreases n,
{
    if n == 0 {
        let q = isqrt(n);
        assert(q == 0);
        assert(q * q == 0 && (q + 1) * (q + 1) == 1) by (nonlinear_arith)
            requires
                q == 0,
        ;
    } else {
        lemma_isqrt_bounds((n - 1) as nat);
        let p = isqrt((n - 1) as nat);
        assert(p * p <= n - 1);
        assert(n - 1 < (p + 1) * (p + 1));
        if (p + 1) * (p + 1) <= n {
            assert(isqrt(n) == p + 1);
            assert((p + 1) * (p + 1) < (p + 2) * (p + 2)) by (nonlinear_arith);
            assert(n < (p + 1 + 1) * (p + 1 + 1));
        } else {
            assert(isqrt(n) == p);
        }
    }
}

/// Any integer bracketing `n` between its own square and its successor's
/// square is `isqrt(n)`.
pub proof fn lemma_isqrt_unique(n: nat, s: nat)
    requires
        s * s <= n,
        n < (s + 1) * (s + 1),
    ensures
        s == isqrt(n),
{
    let t = isqrt(n);
    lemma_isqrt_bounds(n);
    if s < t {
        assert((s + 1) * (s + 1) <= t * t) by (nonlinear_arith)
            requires
                s + 1 <= t,
        ;
    }
    if t < s {
        assert((t + 1) * (t + 1) <= s * s) by (nonlinear_arith)
            requires
                t + 1 <= s,
        ;
    }
}

/// The square root is a left inverse of squaring: `isqrt(k * k) == k`.
pub proof fn lemma_isqrt_of_square(k: nat)
    ensures
        isqrt(k * k) == k,
{
    assert(k * k < (k + 1) * (k + 1)) by (nonlinear_arith);
    lemma_isqrt_unique(k * k, k);
}

/// Voting power never decreases with stake: `isqrt` is monotone.
pub proof fn lemma_isqrt_monotone(a: nat, b: nat)
    requires
        a <= b,
    ensures
        isqrt(a) <= isqrt(b),
{
    lemma_isqrt_bounds(a);
    lemma_isqrt_bounds(b);
    if isqrt(b) < isqrt(a) {
        assert((isqrt(b) + 1) * (isqrt(b) + 1) <= isqrt(a) * isqrt(a)) by (nonlinear_arith)
            requires
                isqrt(b) + 1 <= isqrt(a),
        ;
    }
}

/// Quadratic damping: quadrupling a stake less than quadruples its root,
/// so voting power grows strictly slower than stake.
pub proof fn lemma_isqrt_quadratic_damping(a: nat)
    requires
        isqrt(a) >= 1,
    ensures
        isqrt(4 * a) < 4 * isqrt(a),
{
    let s = isqrt(a);
    let t = isqrt(4 * a);
    lemma_isqrt_bounds(a);
    lemma_isqrt_bounds(4 * a);
    if t >= 2 * s + 2 {
        assert((2 * s + 2) * (2 * s + 2) <= t * t) by (nonlinear_arith)
            requires
                2 * s + 2 <= t,
        ;
        assert((s + 1) * (s + 1) * 4 == (2 * s + 2) * (2 * s + 2)) by (nonlinear_arith);
        assert(4 * a < 4 * ((s + 1) * (s + 1))) by (nonlinear_arith)
            requires
                a < (s + 1) * (s + 1),
        ;
        assert(false);
    }
}

/// One Newton step of the Babylonian iteration, over unbounded integers.
pub open spec fn newton_step(x: int, z: int) -> int
    recommends
        0 <= x,
        1 <= z,
{
    (x / z + z) / 2
}

/// The capped Babylonian iteration: `y` is the previous iterate, `z` the
/// current one; stop when the budget runs out or the iterate stops
/// decreasing, and return the previous iterate.
pub open spec fn newton_iter(x: int, y: int, z: int, fuel: nat) -> int
    decreases fuel,
{
    if fuel == 0 || z >= y {
        y
    } else {
        newton_iter(x, z, newton_step(x, z), (fuel - 1) as nat)
    }
}

/// The exact value `sqrt_fixed` returns on input `x`.
pub open spec fn spec_sqrt_fixed(x: u64) -> int {
    if x == 0 {
        0
    } else if x < 4 {
        1
    } else {
        newton_iter(x as int, x as int, x as int / 2, 20)
    }
}

/// A Newton step from any positive point lands at or above `isqrt(x)`:
/// the iteration can never undershoot the true root.
proof fn lemma_newton_step_at_least_isqrt(x: int, z: int)
    requires
        0 <= x,
        1 <= z,
    ensures
        newton_step(x, z) >= isqrt(x as nat),
{
    let s = isqrt(x as nat) as int;
    lemma_isqrt_bounds(x as nat);
    let d = x / z;
    let r = x % z;
    lemma_fundamental_div_mod(x, z);
    lemma_mod_bound(x, z);
    assert(z * z + s * s >= 2 * s * z) by (nonlinear_arith);
    assert(z * (z + d) > z * (2 * s - 1)) by (nonlinear_arith)
        requires
            x == z * d + r,
            0 <= r < z,
            s * s <= x,
            z * z + s * s >= 2 * s * z,
            1 <= z,
    ;
    assert(z + d > 2 * s - 1) by (nonlinear_arith)
        requires
            1 <= z,
            z * (z + d) > z * (2 * s - 1),
    ;
    lemma_div_is_ordered(2 * s, z + d, 2);
    lemma_div_multiples_vanish(s, 2);
}

/// If a Newton step fails to decrease from a point at or above `isqrt(x)`,
/// that point is exactly `isqrt(x)`.
proof fn lemma_newton_step_no_decrease(x: int, z: int)
    requires
        0 <= x,
        1 <= z,
        isqrt(x as nat) <= z,
        newton_step(x, z) >= z,
    ensures
        z == isqrt(x as nat),
{
    let s = isqrt(x as nat) as int;
    lemma_isqrt_bounds(x as nat);
    let d = x / z;
    if z + d <= 2 * z - 1 {
        lemma_div_is_ordered(z + d, 2 * z - 1, 2);
        lemma_hoist_over_denominator(-1, z, 2);
        assert((2 * z - 1) / 2 == z - 1);
        assert(false);
    }
    assert(d >= z);
    let r = x % z;
    lemma_fundamental_div_mod(x, z);
    lemma_mod_bound(x, z);
    assert(z * z <= x) by (nonlinear_arith)
        requires
            x == z * d + r,
            0 <= r,
            d >= z,
            1 <= z,
    ;
    if s + 1 <= z {
        assert((s + 1) * (s + 1) <= z * z) by (nonlinear_arith)
            requires
                s + 1 <= z,
                0 <= s,
        ;
        assert(false);
    }
}

/// Above the root, a Newton step at least halves the distance to `isqrt(x)`.
proof fn lemma_newton_step_halves_gap(x: int, z: int)
    requires
        4 <= x,
        isqrt(x as nat) < z,
    ensures
        newton_step(x, z) - isqrt(x as nat) <= (z - isqrt(x as nat)) / 2,
{
    let s = isqrt(x as nat) as int;
    lemma_isqrt_bounds(x as nat);
    let d = x / z;
    let r = x % z;
    lemma_fundamental_div_mod(x, z);
    lemma_mod_bound(x, z);
    assert(d <= s) by (nonlinear_arith)
        requires
            x == z * d + r,
            0 <= r,
            s + 1 <= z,
            x < (s + 1) * (s + 1),
            0 <= s,
    ;
    lemma_div_is_ordered(z + d, z + s, 2);
    lemma_hoist_over_denominator(z - s, s, 2);
    assert((z - s) / 2 + s == (z + s) / 2);
}

/// With enough fuel relative to the starting gap, the capped iteration
/// returns exactly `isqrt(x)`.
proof fn lemma_newton_iter_converges(x: int, y: int, z: int, fuel: nat)
    requires
        4 <= x,
        isqrt(x as nat) <= z,
        z < y,
        1 <= fuel,
        z - isqrt(x as nat) < pow2((fuel - 1) as nat),
    ensures
        newton_iter(x, y, z, fuel) == isqrt(x as nat),
    decreases fuel,
{
    let s = isqrt(x as nat) as int;
    let z2 = newton_step(x, z);
    lemma_newton_step_at_least_isqrt(x, z);
    assert(newton_iter(x, y, z, fuel) == newton_iter(x, z, z2, (fuel - 1) as nat));
    if z2 >= z {
        lemma_newton_step_no_decrease(x, z);
        assert(newton_iter(x, z, z2, (fuel - 1) as nat) == z);
    } else {
        assert(z > s);
        lemma_newton_step_halves_gap(x, z);
        if fuel == 1 {
            lemma2_to64();
            assert(false);
        }
        lemma_pow2_unfold((fuel - 1) as nat);
        lemma_pow2_pos((fuel - 2) as nat);
        let k = pow2((fuel - 2) as nat) as int;
        lemma_div_is_ordered(z - s, 2 * k - 1, 2);
        lemma_hoist_over_denominator(-1, k, 2);
        assert((2 * k - 1) / 2 == k - 1);
        lemma_newton_iter_converges(x, z, z2, (fuel - 1) as nat);
    }
}

/// The square root of a nonzero input is at least two once the input
/// reaches four.
proof fn lemma_isqrt_at_least_two(x: u64)
    requires
        4 <= x,
    ensures
        2 <= isqrt(x as nat),
{
    let s = isqrt(x as nat) as int;
    lemma_isqrt_bounds(x as nat);
    if s <= 1 {
        assert((s + 1) * (s + 1) <= 4) by (nonlinear_arith)
            requires
                0 <= s <= 1,
        ;
        assert(false);
    }
}

/// Within [`SQRT_EXACT_INPUT_MAX`] the twenty-step iteration cap is enough:
/// the value `sqrt_fixed` computes is exactly the floor square root.
pub proof fn lemma_sqrt_fixed_exact(x: u64)
    requires
        x <= SQRT_EXACT_INPUT_MAX,
    ensures
        spec_sqrt_fixed(x) == isqrt(x as nat),
{
    if x == 0 {
        assert(0nat * 0nat == 0 && (0nat + 1) * (0nat + 1) == 1) by (nonlinear_arith);
        lemma_isqrt_unique(0, 0);
    } else if x < 4 {
        assert(1nat * 1nat == 1 && (1nat + 1) * (1nat + 1) == 4) by (nonlinear_arith);
        lemma_isqrt_unique(x as nat, 1);
    } else {
        let s = isqrt(x as nat) as int;
        lemma_isqrt_at_least_two(x);
        lemma_isqrt_bounds(x as nat);
        assert(2 * s <= s * s) by (nonlinear_arith)
            requires
                s >= 2,
        ;
        lemma_div_is_ordered(2 * s, x as int, 2);
        lemma_div_multiples_vanish(s, 2);
        lemma2_to64();
        lemma_div_is_ordered(x as int, 1_048_576, 2);
        lemma_newton_iter_converges(x as int, x as int, x as int / 2, 20);
    }
}

/// On a perfect square within the proven-convergence range, `sqrt_fixed`
/// recovers the root exactly.
pub proof fn lemma_sqrt_fixed_of_square(n: u64)
    requires
        n * n <= SQRT_EXACT_INPUT_MAX,
    ensures
        spec_sqrt_fixed((n * n) as u64) == n,
{
    lemma_sqrt_fixed_exact((n * n) as u64);
    lemma_isqrt_of_square(n as nat);
}

/// Within the proven-convergence range the executable square root is weakly
/// monotone: a larger stake never carries less voting power.
pub proof fn lemma_sqrt_fixed_monotone(a: u64, b: u64)
    requires
        a <= b,
        b <= SQRT_EXACT_INPUT_MAX,
    ensures
        spec_sqrt_fixed(a) <= spec_sqrt_fixed(b),
{
    lemma_sqrt_fixed_exact(a);
    lemma_sqrt_fixed_exact(b);
    lemma_isqrt_monotone(a as nat, b as nat);
}

/// Within the proven-convergence range, quadrupling the input less than
/// quadruples the executable square root whenever that root is positive.
pub proof fn lemma_sqrt_fixed_quadratic_damping(a: u64)
    requires
        spec_sqrt_fixed(a) >= 1,
        4 * a <= SQRT_EXACT_INPUT_MAX,
    ensures
        spec_sqrt_fixed((4 * a) as u64) < 4 * spec_sqrt_fixed(a),
{
    lemma_sqrt_fixed_exact(a);
    lemma_sqrt_fixed_exact((4 * a) as u64);
    lemma_isqrt_quadratic_damping(a as nat);
}

/// Integer square root by the Babylonian method: initial guess `x / 2`, at
/// most twenty iterations, stop once the iterate no longer decreases.
///
/// Always succeeds. The result never falls below `isqrt(x)`, and equals
/// `isqrt(x)` for every input up to [`SQRT_EXACT_INPUT_MAX`], the range over
/// which the iteration cap is proven sufficient for convergence.
pub fn sqrt_fixed(x: u64) -> (r: Result<u64, ICBError>)
    ensures
        r is Ok,
        r->Ok_0 == spec_sqrt_fixed(x),
        r->Ok_0 >= isqrt(x as nat),
        x <= SQRT_EXACT_INPUT_MAX ==> r->Ok_0 == isqrt(x as nat),
{
    if x == 0 {
        proof {
            lemma_sqrt_fixed_exact(x);
        }
        return Ok(0);
    }
    if x == 1 {
        proof {
            lemma_sqrt_fixed_exact(x);
        }
        return Ok(1);
    }
    if x < 4 {
        proof {
            lemma_sqrt_fixed_exact(x);
        }
        return Ok(1);
    }
    let ghost s = isqrt(x as nat) as int;
    proof {
        lemma_isqrt_at_least_two(x);
        lemma_isqrt_bounds(x as nat);
        assert(2 * s <= s * s) by (nonlinear_arith)
            requires
                s >= 2,
        ;
        lemma_div_is_ordered(2 * s, x as int, 2);
        lemma_div_multiples_vanish(s, 2);
    }

    let mut z: u64 = x / 2;
    let mut y: u64 = x;
    let mut i: u64 = 0;
    while i < 20 && z < y
        invariant
            4 <= x,
            0 <= i <= 20,
            s == isqrt(x as nat),
            2 <= s,
            s <= z,
            z <= x / 2,
            s <= y,
            y <= x,
            newton_iter(x as int, y as int, z as int, (20 - i) as nat) == spec_sqrt_fixed(x),
        decreases 20 - i,
    {
        proof {
            lemma_newton_step_at_least_isqrt(x as int, z as int);
            lemma_div_is_ordered_by_denominator(x as int, 2, z as int);
            lemma_div_is_ordered(x as int / z as int + z as int, x as int, 2);
        }
        y = z;
        let x_div_z = x.checked_div(z).ok_or(ICBError::MathOverflow)?;
        z = x_div_z.checked_add(z).ok_or(ICBError::MathOverflow)?.checked_div(
            2,
        ).ok_or(ICBError::MathOverflow)?;
        i = i + 1;
    }
    proof {
        if x <= SQRT_EXACT_INPUT_MAX {
            lemma_sqrt_fixed_exact(x);
        }
    }
    Ok(y)
}

/// The voting power a stake carries: `max(1, sqrt_fixed(stake))`.
pub open spec fn spec_voting_power(stake: u64) -> int {
    if spec_sqrt_fixed(stake) >= 1 {
        spec_sqrt_fixed(stake)
    } else {
        1
    }
}

/// Quadratic-staking voting power: `max(1, sqrt_fixed(stake))`, so that any
/// positive stake carries at least one unit of power. Rejects a zero stake.
pub fn calculate_voting_power(stake_amount: u64) -> (r: Result<u64, ICBError>)
    ensures
        r is Err <==> stake_amount == 0,
        r is Err ==> r == Err::<u64, ICBError>(ICBError::InvalidStakeAmount),
        r is Ok ==> 1 <= r->Ok_0 && r->Ok_0 == spec_voting_power(stake_amount),
        1 <= stake_amount <= SQRT_EXACT_INPUT_MAX ==> r == Ok::<u64, ICBError>(
            isqrt(stake_amount as nat) as u64,
        ),
{
    if stake_amount == 0 {
        return Err(ICBError::InvalidStakeAmount);
    }
    let voting_power = sqrt_fixed(stake_amount)?;
    proof {
        if stake_amount <= SQRT_EXACT_INPUT_MAX {
            assert(1nat * 1nat == 1 && (1nat + 1) * (1nat + 1) == 4) by (nonlinear_arith);
            lemma_isqrt_unique(1, 1);
            lemma_isqrt_monotone(1, stake_amount as nat);
        }
    }
    if voting_power >= 1 {
        Ok(voting_power)
    } else {
        Ok(1)
    }
}

/// Checked multiplication: fails with `MathOverflow` instead of wrapping.
pub fn checked_mul(a: u64, b: u64) -> (r: Result<u64, ICBError>)
    ensures
        a * b <= u64::MAX ==> r == Ok::<u64, ICBError>((a * b) as u64),
        a * b > u64::MAX ==> r == Err::<u64, ICBError>(ICBError::MathOverflow),
{
    a.checked_mul(b).ok_or(ICBError::MathOverflow)
}

/// Checked addition: fails with `MathOverflow` instead of wrapping.
pub fn checked_add(a: u64, b: u64) -> (r: Result<u64, ICBError>)
    ensures
        a + b <= u64::MAX ==> r == Ok::<u64, ICBError>((a + b) as u64),
        a + b > u64::MAX ==> r == Err::<u64, ICBError>(ICBError::MathOverflow),
{
    a.checked_add(b).ok_or(ICBError::MathOverflow)
}

/// Checked subtraction: fails with `MathUnderflow` instead of wrapping.
pub fn checked_sub(a: u64, b: u64) -> (r: Result<u64, ICBError>)
    ensures
        a >= b ==> r == Ok::<u64, ICBError>((a - b) as u64),
        a < b ==> r == Err::<u64, ICBError>(ICBError::MathUnderflow),
{
    a.checked_sub(b).ok_or(ICBError::MathUnderflow)
}

} // verus!
