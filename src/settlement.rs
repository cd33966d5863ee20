//! Settlement of a completed sale: the platform's migration fee, the
//! operational reserve for creating the external pool, and the currency and
//! token amounts that seed that pool.
use crate::error::PumpfunError;
use vstd::arithmetic::div_mod::{lemma_div_is_ordered, lemma_multiply_divide_le};
use vstd::prelude::*;

verus! {

/// Operational reserve carved out when a bonding curve's fee is settled, for
/// the cost of creating the external market.
pub const MARKET_CREATION_RESERVE: u64 = 300_000_000;

/// Operational reserve carved out when a token launch migrates, for the cost
/// of creating the external pool and its market.
pub const POOL_CREATION_RESERVE: u64 = 330_000_000;

/// How the reserves of a completed sale are divided.
#[derive(Clone, Copy, Debug, PartialEq, Eq, Structural)]
pub struct Settlement {
    /// Currency paid to the settling caller for pool-creation costs.
    pub operational_reserve: u64,
    /// Currency paid to the platform as migration fee.
    pub fee_amount: u64,
    /// Tokens paid to the platform: those not matched by pool currency.
    pub fee_token_amount: u64,
    /// Currency that seeds the external pool.
    pub pool_currency_amount: u64,
    /// Tokens that seed the external pool, at the curve's current price.
    pub pool_token_amount: u64,
}

/// The migration fee: `fee_pct` percent of the currency raised, rounded down.
pub open spec fn migration_fee(on_curve: int, fee_pct: int) -> int {
    on_curve * fee_pct / 100
}

/// The tokens that match `pool_currency` at the ratio of the reserves,
/// rounded down; none when the currency reserve is empty.
pub open spec fn pool_token_share(
    pool_currency: int,
    reserve_token: int,
    reserve_lamport: int,
) -> int {
    if reserve_lamport == 0 {
        0
    } else {
        pool_currency * reserve_token / reserve_lamport
    }
}

/// The division of the reserves: the currency raised on the curve (the
/// reserve less the seed) pays the fee, the operational reserve and
/// `seed_deduction`, and the rest seeds the pool together with its share of
/// tokens; the remaining tokens go to the platform. It fails when the
/// currency does not cover these amounts.
pub open spec fn split_spec(
    reserve_lamport: u64,
    reserve_token: u64,
    init_lamport: u64,
    fee_pct: u64,
    operational_reserve: u64,
    seed_deduction: u64,
) -> Result<Settlement, PumpfunError> {
    let on_curve = reserve_lamport - init_lamport;
    let fee = migration_fee(on_curve, fee_pct as int);
    let pool_currency = on_curve - fee - operational_reserve - seed_deduction;
    let pool_token = pool_token_share(pool_currency, reserve_token as int, reserve_lamport as int);
    if on_curve < 0 || pool_currency < 0 {
        Err(PumpfunError::OverflowOrUnderflowOccurred)
    } else {
        Ok(
            Settlement {
                operational_reserve,
                fee_amount: fee as u64,
                fee_token_amount: (reserve_token - pool_token) as u64,
                pool_currency_amount: pool_currency as u64,
                pool_token_amount: pool_token as u64,
            },
        )
    }
}

/// Divides the reserves of a completed sale.
pub(crate) fn split_reserves(
    reserve_lamport: u64,
    reserve_token: u64,
    init_lamport: u64,
    fee_pct: u64,
    operational_reserve: u64,
    seed_deduction: u64,
) -> (r: Result<Settlement, PumpfunError>)
    requires
        fee_pct <= 100,
    ensures
        r == split_spec(
            reserve_lamport,
            reserve_token,
            init_lamport,
            fee_pct,
            operational_reserve,
            seed_deduction,
        ),
        r matches Ok(s) ==> s.fee_amount + s.operational_reserve + s.pool_currency_amount
            + seed_deduction == reserve_lamport - init_lamport,
        r matches Ok(s) ==> s.pool_token_amount + s.fee_token_amount == reserve_token,
        r matches Ok(s) ==> s.pool_token_amount == pool_token_share(
            s.pool_currency_amount as int,
            reserve_token as int,
            reserve_lamport as int,
        ),
{
    if reserve_lamport < init_lamport {
        return Err(PumpfunError::OverflowOrUnderflowOccurred);
    }
    let on_curve = reserve_lamport - init_lamport;
    proof {
        assert(0 <= on_curve * fee_pct <= on_curve * 100) by (nonlinear_arith)
            requires
                fee_pct <= 100,
        ;
        assert(on_curve * fee_pct <= u64::MAX * 100) by (nonlinear_arith)
            requires
                fee_pct <= 100,
                on_curve <= u64::MAX,
        ;
        lemma_multiply_divide_le(on_curve * fee_pct, 100, on_curve as int);
        lemma_div_is_ordered(0, on_curve * fee_pct, 100);
    }
    let fee: u64 = ((on_curve as u128 * fee_pct as u128) / 100) as u64;
    let after_fee = on_curve - fee;
    if after_fee < operational_reserve {
        return Err(PumpfunError::OverflowOrUnderflowOccurred);
    }
    let after_reserve = after_fee - operational_reserve;
    if after_reserve < seed_deduction {
        return Err(PumpfunError::OverflowOrUnderflowOccurred);
    }
    let pool_currency = after_reserve - seed_deduction;
    let pool_token: u64 = if reserve_lamport == 0 {
        0
    } else {
        proof {
            assert(pool_currency * reserve_token <= reserve_lamport * reserve_token) by (
            nonlinear_arith)
                requires
                    pool_currency <= reserve_lamport,
            ;
            assert(reserve_lamport * reserve_token <= u64::MAX * u64::MAX) by (nonlinear_arith)
                requires
                    reserve_lamport <= u64::MAX,
                    reserve_token <= u64::MAX,
            ;
            lemma_multiply_divide_le(
                pool_currency * reserve_token,
                reserve_lamport as int,
                reserve_token as int,
            );
            assert(0 <= pool_currency * reserve_token) by (nonlinear_arith);
            lemma_div_is_ordered(0, pool_currency * reserve_token, reserve_lamport as int);
        }
        ((pool_currency as u128 * reserve_token as u128) / reserve_lamport as u128) as u64
    };
    Ok(
        Settlement {
            operational_reserve,
            fee_amount: fee,
            fee_token_amount: reserve_token - pool_token,
            pool_currency_amount: pool_currency,
            pool_token_amount: pool_token,
        },
    )
}

} // verus!
