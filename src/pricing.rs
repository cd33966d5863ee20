//! Constant-product pricing shared by both kinds of sale instance.
//!
//! Amounts are integer minor units. A fee is a whole percentage in `0..=100`.
//! Both formulas are taken in exact rational arithmetic: scaling the operands
//! by a power of ten for a token's decimal precision cancels out, so the
//! results depend on the integer balances alone.
use vstd::arithmetic::div_mod::{
    lemma_div_is_ordered, lemma_div_multiples_vanish, lemma_fundamental_div_mod,
    lemma_fundamental_div_mod_converse_div,
};
use crate::error::PumpfunError;
use vstd::prelude::*;

verus! {

/// The input that remains after a fee of `fee_pct` percent is taken from
/// `amount`: `amount * (100 - fee_pct) / 100`, rounded to the nearest unit,
/// halves upward.
pub open spec fn fee_adjusted(amount: int, fee_pct: int) -> int {
    (amount * (100 - fee_pct) + 50) / 100
}

/// What a constant-product pool with reserves `reserve_in` and `reserve_out`
/// pays out for `adjusted` units put in: `reserve_out / ((reserve_in +
/// adjusted) / adjusted)`, that is `reserve_out * adjusted / (reserve_in +
/// adjusted)`, rounded to the nearest unit, halves upward. Nothing put in
/// pays nothing.
pub open spec fn product_out(reserve_in: int, reserve_out: int, adjusted: int) -> int {
    if adjusted == 0 {
        0
    } else {
        (2 * reserve_out * adjusted + (reserve_in + adjusted)) / (2 * (reserve_in + adjusted))
    }
}

/// `q * d <= n` with `d > 0` gives `q <= n / d`.
proof fn lemma_le_div(q: int, d: int, n: int)
    requires
        d > 0,
        q * d <= n,
    ensures
        q <= n / d,
{
    lemma_div_is_ordered(q * d, n, d);
    assert(q * d == d * q) by (nonlinear_arith);
    lemma_div_multiples_vanish(q, d);
}

/// The fee-adjusted amount lies between zero and the amount.
pub proof fn lemma_fee_adjusted_bounds(amount: int, fee_pct: int)
    requires
        0 <= amount,
        0 <= fee_pct <= 100,
    ensures
        0 <= fee_adjusted(amount, fee_pct) <= amount,
{
    let x = amount * (100 - fee_pct) + 50;
    assert(0 <= amount * (100 - fee_pct) <= 100 * amount) by (nonlinear_arith)
        requires
            0 <= amount,
            0 <= fee_pct <= 100,
    ;
    lemma_fundamental_div_mod(x, 100);
    assert(0 <= x % 100 < 100);
    assert(0 <= x / 100 <= amount) by (nonlinear_arith)
        requires
            x == 100 * (x / 100) + (x % 100),
            0 <= x % 100 < 100,
            50 <= x <= 100 * amount + 50,
    ;
}

/// A pool never pays out more than its output reserve, and the payout
/// exceeds the exact quotient by at most one half.
pub proof fn lemma_product_out_bounds(reserve_in: int, reserve_out: int, adjusted: int)
    requires
        0 <= reserve_in,
        0 <= reserve_out,
        0 <= adjusted,
    ensures
        0 <= product_out(reserve_in, reserve_out, adjusted) <= reserve_out,
        product_out(reserve_in, reserve_out, adjusted) * (2 * (reserve_in + adjusted)) <= 2
            * reserve_out * adjusted + (reserve_in + adjusted),
{
    if adjusted > 0 {
        let d = reserve_in + adjusted;
        let n = 2 * reserve_out * adjusted + d;
        let q = n / (2 * d);
        assert(0 <= n) by (nonlinear_arith)
            requires
                n == 2 * reserve_out * adjusted + d,
                0 <= reserve_out,
                0 < adjusted <= d,
        ;
        lemma_fundamental_div_mod(n, 2 * d);
        lemma_div_is_ordered(0, n, 2 * d);
        assert(q * (2 * d) <= n) by (nonlinear_arith)
            requires
                n == (2 * d) * q + n % (2 * d),
                0 <= n % (2 * d),
        ;
        assert(q <= reserve_out) by (nonlinear_arith)
            requires
                q * (2 * d) <= n,
                n == 2 * reserve_out * adjusted + d,
                0 <= reserve_out,
                0 < adjusted <= d,
        ;
    }
}

/// A larger amount never leaves a smaller fee-adjusted amount.
pub proof fn lemma_fee_adjusted_monotonic(a1: int, a2: int, fee_pct: int)
    requires
        0 <= a1 <= a2,
        0 <= fee_pct <= 100,
    ensures
        fee_adjusted(a1, fee_pct) <= fee_adjusted(a2, fee_pct),
{
    assert(a1 * (100 - fee_pct) <= a2 * (100 - fee_pct)) by (nonlinear_arith)
        requires
            0 <= a1 <= a2,
            0 <= fee_pct <= 100,
    ;
    lemma_div_is_ordered(a1 * (100 - fee_pct) + 50, a2 * (100 - fee_pct) + 50, 100);
}

/// Putting more into a pool never pays out less.
pub proof fn lemma_product_out_monotonic(reserve_in: int, reserve_out: int, a1: int, a2: int)
    requires
        0 <= reserve_in,
        0 <= reserve_out,
        0 <= a1 <= a2,
    ensures
        product_out(reserve_in, reserve_out, a1) <= product_out(reserve_in, reserve_out, a2),
{
    lemma_product_out_bounds(reserve_in, reserve_out, a1);
    lemma_product_out_bounds(reserve_in, reserve_out, a2);
    if a1 > 0 {
        let q1 = product_out(reserve_in, reserve_out, a1);
        let d1 = reserve_in + a1;
        let d2 = reserve_in + a2;
        assert(q1 * (2 * d1) * d2 <= (2 * reserve_out * a1 + d1) * d2) by (nonlinear_arith)
            requires
                q1 * (2 * d1) <= 2 * reserve_out * a1 + d1,
                0 <= d2,
        ;
        assert((2 * reserve_out * a1 + d1) * d2 <= (2 * reserve_out * a2 + d2) * d1)
            by (nonlinear_arith)
            requires
                d1 == reserve_in + a1,
                d2 == reserve_in + a2,
                0 <= reserve_in,
                0 <= reserve_out,
                0 <= a1 <= a2,
        ;
        assert(q1 * (2 * d2) <= 2 * reserve_out * a2 + d2) by (nonlinear_arith)
            requires
                q1 * (2 * d1) * d2 <= (2 * reserve_out * a2 + d2) * d1,
                d1 > 0,
        ;
        lemma_le_div(q1, 2 * d2, 2 * reserve_out * a2 + d2);
    }
}

/// What a swap does to the constant product: with `amount` units added to
/// the input reserve and the payout for a fee-adjusted `adjusted <= amount`
/// taken from the output reserve, the product of the two reserves loses at
/// most the input reserve plus the input, the most that rounding the payout
/// up can cost.
pub proof fn lemma_swap_product_bound(
    reserve_in: int,
    reserve_out: int,
    amount: int,
    adjusted: int,
)
    requires
        0 <= reserve_in,
        0 <= reserve_out,
        0 <= adjusted <= amount,
    ensures
        (reserve_in + amount) * (reserve_out - product_out(reserve_in, reserve_out, adjusted))
            + reserve_in + amount >= reserve_in * reserve_out,
{
    lemma_product_out_bounds(reserve_in, reserve_out, adjusted);
    let q = product_out(reserve_in, reserve_out, adjusted);
    assert((reserve_in + amount) * (reserve_out - q) + reserve_in + amount >= reserve_in
        * reserve_out) by (nonlinear_arith)
        requires
            q * (2 * (reserve_in + adjusted)) <= 2 * reserve_out * adjusted + (reserve_in
                + adjusted),
            0 <= q <= reserve_out,
            0 <= reserve_in,
            0 <= adjusted <= amount,
    ;
}

/// A swap whose payout was not rounded up keeps the constant product: with
/// `amount` units added to the input reserve and the payout for a
/// fee-adjusted `adjusted <= amount` taken from the output reserve, the
/// product of the two reserves does not decrease.
pub proof fn lemma_swap_keeps_product(
    reserve_in: int,
    reserve_out: int,
    amount: int,
    adjusted: int,
)
    requires
        0 <= reserve_in,
        0 <= reserve_out,
        0 <= adjusted <= amount,
        product_out(reserve_in, reserve_out, adjusted) * (reserve_in + adjusted) <= reserve_out
            * adjusted,
    ensures
        (reserve_in + amount) * (reserve_out - product_out(reserve_in, reserve_out, adjusted))
            >= reserve_in * reserve_out,
{
    lemma_product_out_bounds(reserve_in, reserve_out, adjusted);
    let q = product_out(reserve_in, reserve_out, adjusted);
    assert((reserve_in + amount) * (reserve_out - q) >= reserve_in * reserve_out)
        by (nonlinear_arith)
        requires
            q * (reserve_in + adjusted) <= reserve_out * adjusted,
            0 <= q <= reserve_out,
            0 <= reserve_in,
            0 <= adjusted <= amount,
    ;
}

/// Takes a fee of `fee_pct` percent from `amount` and returns what remains,
/// rounded to the nearest unit.
pub fn adjust_for_fee(amount: u64, fee_pct: u64) -> (r: u64)
    requires
        fee_pct <= 100,
    ensures
        r == fee_adjusted(amount as int, fee_pct as int),
        r <= amount,
{
    proof {
        lemma_fee_adjusted_bounds(amount as int, fee_pct as int);
        assert(amount * (100 - fee_pct) <= 100 * u64::MAX) by (nonlinear_arith)
            requires
                amount <= u64::MAX,
                fee_pct <= 100,
        ;
    }
    let keep: u128 = (100 - fee_pct) as u128;
    let scaled: u128 = amount as u128 * keep + 50;
    (scaled / 100) as u64
}

/// The constant-product payout for `adjusted` units put into a pool with
/// reserves `reserve_in` and `reserve_out`.
pub fn constant_product_out(reserve_in: u64, reserve_out: u64, adjusted: u64) -> (r: u64)
    ensures
        r == product_out(reserve_in as int, reserve_out as int, adjusted as int),
        r <= reserve_out,
{
    proof {
        lemma_product_out_bounds(reserve_in as int, reserve_out as int, adjusted as int);
    }
    if adjusted == 0 {
        return 0;
    }
    proof {
        assert(reserve_out * adjusted <= u64::MAX * u64::MAX) by (nonlinear_arith)
            requires
                reserve_out <= u64::MAX,
                adjusted <= u64::MAX,
        ;
    }
    let numerator: u128 = reserve_out as u128 * adjusted as u128;
    let denominator: u128 = reserve_in as u128 + adjusted as u128;
    let quotient = numerator / denominator;
    let remainder = numerator % denominator;
    proof {
        let (n, d) = (numerator as int, denominator as int);
        lemma_fundamental_div_mod(n, d);
        assert(n == quotient * d + remainder) by (nonlinear_arith)
            requires
                n == d * (n / d) + n % d,
                quotient == n / d,
                remainder == n % d,
        ;
        if 2 * remainder >= d {
            assert(2 * n + d == (quotient + 1) * (2 * d) + (2 * remainder - d)) by (
            nonlinear_arith)
                requires
                    n == quotient * d + remainder,
            ;
            lemma_fundamental_div_mod_converse_div(
                2 * n + d,
                2 * d,
                quotient + 1,
                2 * remainder - d,
            );
        } else {
            assert(2 * n + d == quotient * (2 * d) + (2 * remainder + d)) by (nonlinear_arith)
                requires
                    n == quotient * d + remainder,
            ;
            lemma_fundamental_div_mod_converse_div(
                2 * n + d,
                2 * d,
                quotient as int,
                2 * remainder + d,
            );
        }
        assert(2 * n == 2 * reserve_out * adjusted) by (nonlinear_arith)
            requires
                n == reserve_out * adjusted,
        ;
    }
    if 2 * remainder >= denominator {
        (quotient + 1) as u64
    } else {
        quotient as u64
    }
}


/// Whether a swap direction sells tokens for currency; every other value buys
/// tokens with currency.
pub open spec fn is_sell(direction: u8) -> bool {
    direction == 1
}

/// The fee percentage that applies to a swap in `direction`.
pub open spec fn fee_for(direction: u8, sell_fee: u64, buy_fee: u64) -> u64 {
    if is_sell(direction) {
        sell_fee
    } else {
        buy_fee
    }
}

/// The reserve that a swap in `direction` pays into.
pub open spec fn input_reserve(reserve_token: u64, reserve_lamport: u64, direction: u8) -> u64 {
    if is_sell(direction) {
        reserve_token
    } else {
        reserve_lamport
    }
}

/// The reserve that a swap in `direction` pays out of.
pub open spec fn output_reserve(reserve_token: u64, reserve_lamport: u64, direction: u8) -> u64 {
    if is_sell(direction) {
        reserve_lamport
    } else {
        reserve_token
    }
}

/// The quote for swapping `amount` against the reserves: the fee-adjusted
/// input and the payout. It fails when the input reserve plus the adjusted
/// input does not fit in 64 bits.
pub open spec fn quote_spec(
    reserve_token: u64,
    reserve_lamport: u64,
    amount: u64,
    direction: u8,
    sell_fee: u64,
    buy_fee: u64,
) -> Result<(u64, u64), PumpfunError> {
    let adjusted = fee_adjusted(amount as int, fee_for(direction, sell_fee, buy_fee) as int);
    let reserve_in = input_reserve(reserve_token, reserve_lamport, direction);
    let reserve_out = output_reserve(reserve_token, reserve_lamport, direction);
    if reserve_in + adjusted > u64::MAX {
        Err(PumpfunError::OverflowOrUnderflowOccurred)
    } else {
        Ok((adjusted as u64, product_out(reserve_in as int, reserve_out as int, adjusted) as u64))
    }
}

/// Quotes a swap of `amount` in `direction` against the given reserves:
/// returns the fee-adjusted input and the payout taken from the other
/// reserve.
pub fn quote(
    reserve_token: u64,
    reserve_lamport: u64,
    amount: u64,
    direction: u8,
    sell_fee: u64,
    buy_fee: u64,
) -> (r: Result<(u64, u64), PumpfunError>)
    requires
        sell_fee <= 100,
        buy_fee <= 100,
    ensures
        r == quote_spec(reserve_token, reserve_lamport, amount, direction, sell_fee, buy_fee),
        r matches Ok((adjusted, out)) ==> adjusted <= amount && out <= output_reserve(
            reserve_token,
            reserve_lamport,
            direction,
        ),
{
    let fee = if direction == 1 {
        sell_fee
    } else {
        buy_fee
    };
    let adjusted = adjust_for_fee(amount, fee);
    let (reserve_in, reserve_out) = if direction == 1 {
        (reserve_token, reserve_lamport)
    } else {
        (reserve_lamport, reserve_token)
    };
    if reserve_in.checked_add(adjusted).is_none() {
        return Err(PumpfunError::OverflowOrUnderflowOccurred);
    }
    let out = constant_product_out(reserve_in, reserve_out, adjusted);
    Ok((adjusted, out))
}


/// A larger amount, in the same direction and with the same fees, never
/// gets a smaller quote: if the larger amount can be quoted, so can the
/// smaller, with no larger fee-adjusted input and no larger payout.
pub proof fn lemma_quote_monotonic(
    reserve_token: u64,
    reserve_lamport: u64,
    a1: u64,
    a2: u64,
    direction: u8,
    sell_fee: u64,
    buy_fee: u64,
)
    requires
        a1 <= a2,
        sell_fee <= 100,
        buy_fee <= 100,
        quote_spec(reserve_token, reserve_lamport, a2, direction, sell_fee, buy_fee) is Ok,
    ensures
        ({
            let q1 = quote_spec(reserve_token, reserve_lamport, a1, direction, sell_fee, buy_fee);
            let q2 = quote_spec(reserve_token, reserve_lamport, a2, direction, sell_fee, buy_fee);
            &&& q1 is Ok
            &&& q1->Ok_0.0 <= q2->Ok_0.0
            &&& q1->Ok_0.1 <= q2->Ok_0.1
        }),
{
    let fee = fee_for(direction, sell_fee, buy_fee) as int;
    let reserve_in = input_reserve(reserve_token, reserve_lamport, direction) as int;
    let reserve_out = output_reserve(reserve_token, reserve_lamport, direction) as int;
    lemma_fee_adjusted_bounds(a1 as int, fee);
    lemma_fee_adjusted_bounds(a2 as int, fee);
    lemma_fee_adjusted_monotonic(a1 as int, a2 as int, fee);
    let j1 = fee_adjusted(a1 as int, fee);
    let j2 = fee_adjusted(a2 as int, fee);
    lemma_product_out_bounds(reserve_in, reserve_out, j1);
    lemma_product_out_bounds(reserve_in, reserve_out, j2);
    lemma_product_out_monotonic(reserve_in, reserve_out, j1, j2);
}

} // verus!
