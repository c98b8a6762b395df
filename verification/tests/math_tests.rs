use amm_core::math::{amount_in, amount_out, isqrt, optimal_contribution, quote, MathError};

#[test]
fn quote_scales_by_the_reserve_ratio() {
    assert_eq!(quote(100, 1000, 2000), Ok(200));
    assert_eq!(quote(3, 7, 5), Ok(2)); // 15 / 7 rounded down
    assert_eq!(quote(1, 1, u128::MAX), Ok(u128::MAX));
}

#[test]
fn quote_rejects_zero_amount() {
    assert_eq!(quote(0, 1000, 2000), Err(MathError::InsufficientAmount));
}

#[test]
fn quote_rejects_empty_reserves() {
    assert_eq!(quote(5, 0, 2000), Err(MathError::InsufficientLiquidity));
    assert_eq!(quote(5, 1000, 0), Err(MathError::InsufficientLiquidity));
    assert_eq!(quote(5, 0, 0), Err(MathError::InsufficientLiquidity));
}

#[test]
fn quote_reports_overflow() {
    assert_eq!(quote(2, 1, u128::MAX), Err(MathError::CalculationOverflow));
}

#[test]
fn optimal_contribution_bootstrap_ignores_minimums() {
    // With both reserves zero the desired amounts pass through unchanged,
    // even when the minimum bounds could never be met.
    assert_eq!(
        optimal_contribution(10000, 9000, 99999, 99999, 0, 0),
        Ok((10000, 9000))
    );
    assert_eq!(optimal_contribution(0, 0, 5, 5, 0, 0), Ok((0, 0)));
}

#[test]
fn optimal_contribution_accepts_quoted_b_side() {
    // Reserves 1000:2000 value 100 of A at 200 of B.
    assert_eq!(
        optimal_contribution(100, 250, 90, 150, 1000, 2000),
        Ok((100, 200))
    );
}

#[test]
fn optimal_contribution_rejects_low_b_quote() {
    assert_eq!(
        optimal_contribution(100, 250, 90, 201, 1000, 2000),
        Err(MathError::InsufficientBAmount)
    );
}

#[test]
fn optimal_contribution_falls_back_to_a_quote() {
    // The B quote (200) overshoots desired B (150), so A is requoted:
    // 150 of B is worth 75 of A.
    assert_eq!(
        optimal_contribution(100, 150, 70, 100, 1000, 2000),
        Ok((75, 150))
    );
    assert_eq!(
        optimal_contribution(100, 150, 80, 100, 1000, 2000),
        Err(MathError::InsufficientAAmount)
    );
}

#[test]
fn optimal_contribution_reports_a_failed_fallback_quote() {
    // The B quote (1) overshoots the desired 0, and requoting A from a zero
    // desired B amount cannot work.
    assert_eq!(
        optimal_contribution(1, 0, 0, 0, 1, 1),
        Err(MathError::CalculationAmountError)
    );
}

#[test]
fn optimal_contribution_with_one_empty_reserve_fails() {
    assert_eq!(
        optimal_contribution(100, 150, 0, 0, 0, 2000),
        Err(MathError::InsufficientLiquidity)
    );
}

#[test]
fn amount_out_charges_the_fee() {
    // 997 * 100 * 10000 / (10000 * 1000 + 997 * 100) = 98.7...
    assert_eq!(amount_out(100, 10000, 10000), Ok(98));
    // The swap taken in the end-to-end scenario: 100 in against (9000, 10000).
    assert_eq!(amount_out(100, 9000, 10000), Ok(109));
}

#[test]
fn amount_out_rejects_bad_inputs() {
    assert_eq!(amount_out(0, 10, 10), Err(MathError::InsufficientAmount));
    assert_eq!(amount_out(5, 0, 10), Err(MathError::InsufficientLiquidity));
    assert_eq!(amount_out(5, 10, 0), Err(MathError::InsufficientLiquidity));
    assert_eq!(
        amount_out(u128::MAX / 2, 10, 10),
        Err(MathError::CalculationOverflow)
    );
}

#[test]
fn amount_in_rounds_against_the_trader() {
    // 1000 * 98 * 10000 / (997 * (10000 - 98)) + 1 = 99.2 + 1
    assert_eq!(amount_in(98, 10000, 10000), Ok(100));
}

#[test]
fn amount_in_rejects_bad_inputs() {
    assert_eq!(amount_in(0, 10, 10), Err(MathError::InsufficientAmount));
    assert_eq!(amount_in(5, 0, 10), Err(MathError::InsufficientLiquidity));
    assert_eq!(amount_in(5, 10, 0), Err(MathError::InsufficientLiquidity));
    // Asking for the whole output reserve (or more) is unreachable.
    assert_eq!(amount_in(10, 10, 10), Err(MathError::InsufficientLiquidity));
    assert_eq!(amount_in(11, 10, 10), Err(MathError::InsufficientLiquidity));
    assert_eq!(
        amount_in(u128::MAX / 500, 10, u128::MAX / 499),
        Err(MathError::CalculationOverflow)
    );
}

#[test]
fn paying_the_quoted_input_reaches_the_desired_output() {
    // The round trip the library proves: amount_in quotes a price, and
    // swapping that payment buys at least what was asked for.
    for (want, r_in, r_out) in [(98u128, 10000u128, 10000u128), (4, 10, 10), (500, 7000, 9000)] {
        let paid = amount_in(want, r_in, r_out).unwrap();
        let got = amount_out(paid, r_in, r_out).unwrap();
        assert!(got >= want, "paid {paid}, got {got}, wanted {want}");
    }
}

#[test]
fn a_swap_never_shrinks_the_reserve_product() {
    for (amount, r_in, r_out) in [(100u128, 10000u128, 10000u128), (1, 3, 900), (999, 10, 10)] {
        let out = amount_out(amount, r_in, r_out).unwrap();
        assert!(out < r_out);
        assert!((r_in + amount) * (r_out - out) >= r_in * r_out);
    }
}

#[test]
fn isqrt_rounds_down() {
    assert_eq!(isqrt(0), 0);
    assert_eq!(isqrt(1), 1);
    assert_eq!(isqrt(3), 1);
    assert_eq!(isqrt(4), 2);
    assert_eq!(isqrt(99), 9);
    assert_eq!(isqrt(100_000_000), 10_000);
    assert_eq!(isqrt(90_000_000), 9486);
    assert_eq!(isqrt(u128::MAX), (1u128 << 64) - 1);
}
