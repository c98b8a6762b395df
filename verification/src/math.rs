//! Pure exchange math for a constant-product pool.
//!
//! Every function is total: arithmetic is overflow-checked and each failure
//! case is reported through [`MathError`]. The spec functions alongside the
//! executable ones are the reference definitions the rest of the crate
//! reasons with.

use vstd::prelude::*;

verus! {

use vstd::arithmetic::div_mod::lemma_fundamental_div_mod;
use vstd::arithmetic::div_mod::lemma_mod_division_less_than_divisor;

/// Numerator of the fee retained on every swap: a 0.3% fee leaves 997
/// parts per [`FEE_DENOMINATOR`] of the input working for the trader.
pub const FEE_NUMERATOR: u128 = 997;

/// Denominator of the swap fee fixed-point scale.
pub const FEE_DENOMINATOR: u128 = 1000;

/// Errors reported by the exchange formulas.
#[derive(Debug, Clone, Copy, PartialEq, Eq, Structural)]
pub enum MathError {
    /// The supplied input amount was zero.
    InsufficientAmount,
    /// One of the reserves involved was zero (or too small to serve the request).
    InsufficientLiquidity,
    /// An intermediate product or sum exceeded the 128-bit range.
    CalculationOverflow,
    /// The recomputed A-side contribution fell below the caller's minimum.
    InsufficientAAmount,
    /// The quoted B-side contribution fell below the caller's minimum.
    InsufficientBAmount,
    /// The recomputed A-side contribution exceeded the caller's desired amount.
    AddingLiquidityFailed,
    /// The fallback quote for the A side could not be computed.
    CalculationAmountError,
}

/// What [`quote`] returns: the B-side amount matching `amount_a` at the
/// current reserve ratio, or the error rejecting the request.
pub open spec fn spec_quote(amount_a: u128, reserve_a: u128, reserve_b: u128) -> Result<
    u128,
    MathError,
> {
    if amount_a == 0 {
        Err(MathError::InsufficientAmount)
    } else if reserve_a == 0 || reserve_b == 0 {
        Err(MathError::InsufficientLiquidity)
    } else if amount_a * reserve_b > u128::MAX {
        Err(MathError::CalculationOverflow)
    } else {
        Ok(((amount_a * reserve_b) / (reserve_a as int)) as u128)
    }
}

/// Values an existing pool with reserves `reserve_a`/`reserve_b`: the amount
/// of asset B worth the same as `amount_a` of asset A, rounded down.
pub fn quote(amount_a: u128, reserve_a: u128, reserve_b: u128) -> (r: Result<u128, MathError>)
    ensures
        r == spec_quote(amount_a, reserve_a, reserve_b),
{
    if amount_a == 0 {
        return Err(MathError::InsufficientAmount);
    }
    if reserve_a > 0 && reserve_b > 0 {
        match amount_a.checked_mul(reserve_b) {
            Some(scaled) => Ok(scaled / reserve_a),
            None => Err(MathError::CalculationOverflow),
        }
    } else {
        Err(MathError::InsufficientLiquidity)
    }
}

/// What [`optimal_contribution`] returns for every combination of desired
/// amounts, minimum bounds and reserves.
pub open spec fn spec_optimal_contribution(
    amount_a_desired: u128,
    amount_b_desired: u128,
    amount_a_min: u128,
    amount_b_min: u128,
    reserve_a: u128,
    reserve_b: u128,
) -> Result<(u128, u128), MathError> {
    if reserve_a == 0 && reserve_b == 0 {
        Ok((amount_a_desired, amount_b_desired))
    } else {
        match spec_quote(amount_a_desired, reserve_a, reserve_b) {
            Err(e) => Err(e),
            Ok(amount_b_optimal) => if amount_b_optimal <= amount_b_desired {
                if amount_b_optimal >= amount_b_min {
                    Ok((amount_a_desired, amount_b_optimal))
                } else {
                    Err(MathError::InsufficientBAmount)
                }
            } else {
                match spec_quote(amount_b_desired, reserve_b, reserve_a) {
                    Err(_) => Err(MathError::CalculationAmountError),
                    Ok(amount_a_optimal) => if amount_a_optimal <= amount_a_desired {
                        if amount_a_optimal >= amount_a_min {
                            Ok((amount_a_optimal, amount_b_desired))
                        } else {
                            Err(MathError::InsufficientAAmount)
                        }
                    } else {
                        Err(MathError::AddingLiquidityFailed)
                    },
                }
            },
        }
    }
}

/// Picks the amounts actually contributed when adding liquidity.
///
/// On the very first deposit (both reserves zero) the desired amounts are
/// used unchanged, whatever the minimum bounds say. Afterwards the deposit is
/// scaled down to the reserve ratio: either the full A side with a quoted B
/// side, or — when that quote overshoots — a quoted A side with the full B
/// side, each checked against the caller's minimum.
pub fn optimal_contribution(
    amount_a_desired: u128,
    amount_b_desired: u128,
    amount_a_min: u128,
    amount_b_min: u128,
    reserve_a: u128,
    reserve_b: u128,
) -> (r: Result<(u128, u128), MathError>)
    ensures
        r == spec_optimal_contribution(
            amount_a_desired,
            amount_b_desired,
            amount_a_min,
            amount_b_min,
            reserve_a,
            reserve_b,
        ),
        reserve_a == 0 && reserve_b == 0 ==> r == Ok::<_, MathError>(
            (amount_a_desired, amount_b_desired),
        ),
{
    if reserve_a == 0 && reserve_b == 0 {
        return Ok((amount_a_desired, amount_b_desired));
    }
    match quote(amount_a_desired, reserve_a, reserve_b) {
        Ok(amount_b_optimal) => {
            if amount_b_optimal <= amount_b_desired {
                if amount_b_optimal >= amount_b_min {
                    Ok((amount_a_desired, amount_b_optimal))
                } else {
                    Err(MathError::InsufficientBAmount)
                }
            } else {
                match quote(amount_b_desired, reserve_b, reserve_a) {
                    Ok(amount_a_optimal) => {
                        if amount_a_optimal <= amount_a_desired {
                            if amount_a_optimal >= amount_a_min {
                                Ok((amount_a_optimal, amount_b_desired))
                            } else {
                                Err(MathError::InsufficientAAmount)
                            }
                        } else {
                            Err(MathError::AddingLiquidityFailed)
                        }
                    },
                    Err(_) => Err(MathError::CalculationAmountError),
                }
            }
        },
        Err(e) => Err(e),
    }
}

/// The fee-adjusted swap output as plain integer arithmetic, with no range
/// checks: `floor(997·in·rOut / (1000·rIn + 997·in))`.
pub open spec fn spec_amount_out(amount_in: int, reserve_in: int, reserve_out: int) -> int {
    (amount_in * 997 * reserve_out) / (reserve_in * 1000 + amount_in * 997)
}

/// What [`amount_out`] returns for every input, range checks included.
pub open spec fn spec_amount_out_checked(amount_in: u128, reserve_in: u128, reserve_out: u128) -> Result<
    u128,
    MathError,
> {
    if amount_in == 0 {
        Err(MathError::InsufficientAmount)
    } else if reserve_in == 0 || reserve_out == 0 {
        Err(MathError::InsufficientLiquidity)
    } else if amount_in * 997 > u128::MAX || amount_in * 997 * reserve_out > u128::MAX
        || reserve_in * 1000 + amount_in * 997 > u128::MAX {
        Err(MathError::CalculationOverflow)
    } else {
        Ok(spec_amount_out(amount_in as int, reserve_in as int, reserve_out as int) as u128)
    }
}

/// The output amount a swap of `amount_in` buys against reserves
/// `reserve_in`/`reserve_out`, after the 0.3% fee, rounded down.
pub fn amount_out(amount_in: u128, reserve_in: u128, reserve_out: u128) -> (r: Result<
    u128,
    MathError,
>)
    ensures
        r == spec_amount_out_checked(amount_in, reserve_in, reserve_out),
{
    if amount_in == 0 {
        return Err(MathError::InsufficientAmount);
    }
    if reserve_in == 0 || reserve_out == 0 {
        return Err(MathError::InsufficientLiquidity);
    }
    let amount_in_with_fee = match amount_in.checked_mul(FEE_NUMERATOR) {
        Some(v) => v,
        None => {
            return Err(MathError::CalculationOverflow);
        },
    };
    let numerator = match amount_in_with_fee.checked_mul(reserve_out) {
        Some(v) => v,
        None => {
            return Err(MathError::CalculationOverflow);
        },
    };
    let scaled_reserve = match reserve_in.checked_mul(FEE_DENOMINATOR) {
        Some(v) => v,
        None => {
            return Err(MathError::CalculationOverflow);
        },
    };
    let denominator = match scaled_reserve.checked_add(amount_in_with_fee) {
        Some(v) => v,
        None => {
            return Err(MathError::CalculationOverflow);
        },
    };
    Ok(numerator / denominator)
}

/// The fee-adjusted swap input as plain integer arithmetic, with no range
/// checks: `floor(1000·out·rOut / (997·(rOut − out))) + 1`.
pub open spec fn spec_amount_in(amount_out: int, reserve_in: int, reserve_out: int) -> int {
    (amount_out * 1000 * reserve_out) / ((reserve_out - amount_out) * 997) + 1
}

/// What [`amount_in`] returns for every input, range checks included.
pub open spec fn spec_amount_in_checked(amount_out: u128, reserve_in: u128, reserve_out: u128) -> Result<
    u128,
    MathError,
> {
    if amount_out == 0 {
        Err(MathError::InsufficientAmount)
    } else if reserve_in == 0 || reserve_out == 0 {
        Err(MathError::InsufficientLiquidity)
    } else if amount_out >= reserve_out {
        Err(MathError::InsufficientLiquidity)
    } else if amount_out * 1000 > u128::MAX || amount_out * 1000 * reserve_out > u128::MAX || (
    reserve_out - amount_out) * 997 > u128::MAX || spec_amount_in(
        amount_out as int,
        reserve_in as int,
        reserve_out as int,
    ) > u128::MAX {
        Err(MathError::CalculationOverflow)
    } else {
        Ok(spec_amount_in(amount_out as int, reserve_in as int, reserve_out as int) as u128)
    }
}

/// The input amount a swap must pay to receive `amount_out` from reserves
/// `reserve_in`/`reserve_out`; the final `+ 1` rounds in the pool's favor.
///
/// A request for the whole output reserve (or more) is rejected as
/// [`MathError::InsufficientLiquidity`], since no finite input reaches it.
pub fn amount_in(amount_out: u128, reserve_in: u128, reserve_out: u128) -> (r: Result<
    u128,
    MathError,
>)
    ensures
        r == spec_amount_in_checked(amount_out, reserve_in, reserve_out),
{
    if amount_out == 0 {
        return Err(MathError::InsufficientAmount);
    }
    if reserve_in == 0 || reserve_out == 0 {
        return Err(MathError::InsufficientLiquidity);
    }
    if amount_out >= reserve_out {
        return Err(MathError::InsufficientLiquidity);
    }
    let scaled_out = match amount_out.checked_mul(FEE_DENOMINATOR) {
        Some(v) => v,
        None => {
            return Err(MathError::CalculationOverflow);
        },
    };
    let numerator = match scaled_out.checked_mul(reserve_out) {
        Some(v) => v,
        None => {
            return Err(MathError::CalculationOverflow);
        },
    };
    let denominator = match (reserve_out - amount_out).checked_mul(FEE_NUMERATOR) {
        Some(v) => v,
        None => {
            return Err(MathError::CalculationOverflow);
        },
    };
    match (numerator / denominator).checked_add(1) {
        Some(v) => Ok(v),
        None => Err(MathError::CalculationOverflow),
    }
}

/// `r` is the integer square root of `x` rounded down.
pub open spec fn is_sqrt_floor(x: int, r: int) -> bool {
    r >= 0 && r * r <= x && (r + 1) * (r + 1) > x
}

/// The integer square root of `x` rounded down, as a spec-level value.
pub open spec fn sqrt_floor(x: int) -> int {
    choose|r: int| is_sqrt_floor(x, r)
}

/// At most one integer satisfies [`is_sqrt_floor`] for a given radicand.
pub proof fn lemma_sqrt_floor_unique(x: int, a: int, b: int)
    requires
        is_sqrt_floor(x, a),
        is_sqrt_floor(x, b),
    ensures
        a == b,
{
    if a < b {
        assert((a + 1) * (a + 1) <= b * b) by (nonlinear_arith)
            requires
                0 <= a,
                a < b,
        ;
    }
    if b < a {
        assert((b + 1) * (b + 1) <= a * a) by (nonlinear_arith)
            requires
                0 <= b,
                b < a,
        ;
    }
}

/// The integer square root of `x`, rounded down, by bisection.
pub fn isqrt(x: u128) -> (r: u128)
    ensures
        is_sqrt_floor(x as int, r as int),
        r == sqrt_floor(x as int),
{
    let mut lo: u128 = 0;
    let mut hi: u128 = 0x1_0000_0000_0000_0000;
    proof {
        assert((hi as int) * (hi as int) > x as int) by (nonlinear_arith)
            requires
                hi == 0x1_0000_0000_0000_0000int,
                x <= u128::MAX,
        ;
    }
    while lo + 1 < hi
        invariant
            lo < hi <= 0x1_0000_0000_0000_0000,
            (lo as int) * (lo as int) <= x as int,
            (hi as int) * (hi as int) > x as int,
        decreases hi - lo,
    {
        let mid = lo + (hi - lo) / 2;
        proof {
            assert(mid * mid <= u128::MAX) by (nonlinear_arith)
                requires
                    mid < 0x1_0000_0000_0000_0000int,
            ;
        }
        if mid * mid <= x {
            lo = mid;
        } else {
            hi = mid;
        }
    }
    proof {
        lemma_sqrt_floor_unique(x as int, lo as int, sqrt_floor(x as int));
    }
    lo
}

/// A swap never decreases the reserve product: with `out` the fee-adjusted
/// output for `amount_in`, the post-swap reserves `(reserve_in + amount_in,
/// reserve_out - out)` multiply to at least `reserve_in * reserve_out`, and
/// the output always leaves part of the reserve behind.
pub proof fn lemma_constant_product_non_decreasing(
    amount_in: int,
    reserve_in: int,
    reserve_out: int,
)
    requires
        1 <= amount_in,
        1 <= reserve_in,
        1 <= reserve_out,
    ensures
        0 <= spec_amount_out(amount_in, reserve_in, reserve_out) < reserve_out,
        (reserve_in + amount_in) * (reserve_out - spec_amount_out(
            amount_in,
            reserve_in,
            reserve_out,
        )) >= reserve_in * reserve_out,
{
    let fee = amount_in * 997;
    let d = reserve_in * 1000 + fee;
    let n = fee * reserve_out;
    let out = spec_amount_out(amount_in, reserve_in, reserve_out);
    assert(fee >= 997 && d >= 1997 && n >= fee && n < d * reserve_out) by (nonlinear_arith)
        requires
            1 <= amount_in,
            1 <= reserve_in,
            1 <= reserve_out,
            fee == amount_in * 997,
            d == reserve_in * 1000 + fee,
            n == fee * reserve_out,
    ;
    lemma_fundamental_div_mod(n, d);
    lemma_mod_division_less_than_divisor(n, d);
    assert(d * out <= n);
    vstd::arithmetic::div_mod::lemma_div_pos_is_pos(n, d);
    assert(out >= 0);
    assert(out < reserve_out) by (nonlinear_arith)
        requires
            d * out <= n,
            n < d * reserve_out,
            d >= 1,
    ;
    // 997·(rIn + in) ≤ d, so 997·(rIn + in)·out ≤ d·out ≤ n = 997·in·rOut,
    // and cancelling the factor 997 bounds the reserve drained by the swap.
    assert((reserve_in + amount_in) * out <= amount_in * reserve_out) by (nonlinear_arith)
        requires
            d * out <= n,
            fee == amount_in * 997,
            d == reserve_in * 1000 + fee,
            n == fee * reserve_out,
            out >= 0,
            reserve_in >= 1,
    ;
    assert((reserve_in + amount_in) * (reserve_out - out) >= reserve_in * reserve_out)
        by (nonlinear_arith)
        requires
            (reserve_in + amount_in) * out <= amount_in * reserve_out,
    ;
}

/// Paying what [`spec_amount_in`] asks for a desired output, then swapping
/// that payment through [`spec_amount_out`], yields at least the desired
/// output: the `+ 1` rounding means a trader can never underpay.
///
/// The input formula scales by the output-side reserve, so the bound needs
/// the output reserve to be at least the input reserve.
pub proof fn lemma_swap_round_trip(amount: int, reserve_in: int, reserve_out: int)
    requires
        1 <= amount < reserve_out,
        1 <= reserve_in <= reserve_out,
    ensures
        spec_amount_in(amount, reserve_in, reserve_out) >= 1,
        spec_amount_out(
            spec_amount_in(amount, reserve_in, reserve_out),
            reserve_in,
            reserve_out,
        ) >= amount,
{
    let shortfall = (reserve_out - amount) * 997;
    let scaled = amount * 1000 * reserve_out;
    let paid = spec_amount_in(amount, reserve_in, reserve_out);
    assert(shortfall >= 997 && scaled >= 1000) by (nonlinear_arith)
        requires
            1 <= amount < reserve_out,
            1 <= reserve_out,
            shortfall == (reserve_out - amount) * 997,
            scaled == amount * 1000 * reserve_out,
    ;
    lemma_fundamental_div_mod(scaled, shortfall);
    lemma_mod_division_less_than_divisor(scaled, shortfall);
    assert(scaled < shortfall * paid) by (nonlinear_arith)
        requires
            paid == scaled / shortfall + 1,
            scaled == shortfall * (scaled / shortfall) + scaled % shortfall,
            0 <= scaled % shortfall < shortfall,
    ;
    assert(paid >= 1) by (nonlinear_arith)
        requires
            scaled < shortfall * paid,
            scaled >= 1000,
            shortfall >= 997,
    ;
    // The payment covers the exact price: 997·paid·(rOut − amount) exceeds
    // 1000·amount·rOut, hence (with rIn ≤ rOut) also 1000·amount·rIn.
    let fee = paid * 997;
    let d = reserve_in * 1000 + fee;
    let n = fee * reserve_out;
    assert(d >= 1997 && n > amount * d) by (nonlinear_arith)
        requires
            scaled < shortfall * paid,
            shortfall == (reserve_out - amount) * 997,
            scaled == amount * 1000 * reserve_out,
            fee == paid * 997,
            d == reserve_in * 1000 + fee,
            n == fee * reserve_out,
            1 <= amount,
            1 <= reserve_in <= reserve_out,
            paid >= 1,
    ;
    lemma_fundamental_div_mod(n, d);
    lemma_mod_division_less_than_divisor(n, d);
    assert(n / d >= amount) by (nonlinear_arith)
        requires
            n > amount * d,
            n == d * (n / d) + n % d,
            0 <= n % d < d,
            d >= 1997,
    ;
}

} // verus!
