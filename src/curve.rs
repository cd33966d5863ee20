//! The bonding curve of one token sale: swaps against its reserves,
//! completion at the configured threshold, and what happens after it.
use crate::address::Address;
use crate::config::Config;
use crate::error::PumpfunError;
use crate::pricing::{
    fee_adjusted, fee_for, input_reserve, is_sell, lemma_fee_adjusted_bounds,
    lemma_product_out_bounds, lemma_swap_keeps_product, lemma_swap_product_bound, output_reserve,
    product_out, quote, quote_spec,
};
use crate::settlement::{pool_token_share, split_reserves, split_spec, Settlement};
use crate::whitelist::WhitelistRegistry;
use vstd::prelude::*;

verus! {

/// The live state of one sale on a bonding curve.
#[derive(Clone, Copy, Debug)]
pub struct BondingCurve {
    pub token_mint: Address,
    pub creator: Address,
    /// The virtual currency seed the curve started from; swaps never pay it
    /// out.
    pub init_lamport: u64,
    /// Currency reserve, in minor units.
    pub reserve_lamport: u64,
    /// Token reserve, in minor units.
    pub reserve_token: u64,
    /// Set once the currency reserve has reached the completion threshold;
    /// never cleared.
    pub is_completed: bool,
}

/// What a successful swap moved, for the caller to carry out.
#[derive(Clone, Copy, Debug, PartialEq, Eq, Structural)]
pub struct SwapOutcome {
    /// The input actually spent (a buy may be capped below the request).
    pub amount_in: u64,
    /// The input left after the platform fee; it is what was priced.
    pub adjusted_amount: u64,
    /// The platform fee, `amount_in - adjusted_amount`, in the input's unit.
    pub fee_amount: u64,
    /// What the caller receives, in the other unit.
    pub amount_out: u64,
    /// Whether this swap is the one that completed the sale.
    pub completed: bool,
}

/// What a withdrawal after completion hands to the administrator.
#[derive(Clone, Copy, Debug, PartialEq, Eq, Structural)]
pub struct WithdrawOutcome {
    /// The currency raised on the curve, seed excluded.
    pub lamport_amount: u64,
    /// The whole token reserve.
    pub token_amount: u64,
}

/// The currency a buy may still add before the reserve reaches `limit`.
pub open spec fn room_below(limit: u64, reserve_lamport: u64) -> int {
    if reserve_lamport >= limit {
        0
    } else {
        limit - reserve_lamport
    }
}

impl BondingCurve {
    /// The curve after its reserves are overwritten, completed if the
    /// currency reserve reaches `limit`.
    pub open spec fn with_reserves(
        self,
        limit: u64,
        reserve_token: u64,
        reserve_lamport: u64,
    ) -> BondingCurve {
        BondingCurve {
            reserve_token,
            reserve_lamport,
            is_completed: self.is_completed || reserve_lamport >= limit,
            ..self
        }
    }

    /// The input a swap of `amount` spends: all of it for a sell, and for a
    /// buy no more than the room left below the completion threshold.
    pub open spec fn capped_amount(self, limit: u64, amount: u64, direction: u8) -> int {
        if is_sell(direction) {
            amount as int
        } else if amount <= room_below(limit, self.reserve_lamport) {
            amount as int
        } else {
            room_below(limit, self.reserve_lamport)
        }
    }

    /// The fee-adjusted input of a swap of `amount_in`.
    pub open spec fn adjusted_in(self, config: Config, amount_in: int, direction: u8) -> int {
        fee_adjusted(
            amount_in,
            fee_for(direction, config.platform_sell_fee, config.platform_buy_fee) as int,
        )
    }

    /// The payout of a swap of `amount_in`.
    pub open spec fn payout(self, config: Config, amount_in: int, direction: u8) -> int {
        let adjusted = self.adjusted_in(config, amount_in, direction);
        if is_sell(direction) {
            product_out(self.reserve_token as int, self.reserve_lamport as int, adjusted)
        } else {
            product_out(self.reserve_lamport as int, self.reserve_token as int, adjusted)
        }
    }

    /// The reserves after a swap of `amount_in` paying out `out`: the input
    /// reserve grows by the whole input, the output reserve shrinks by `out`.
    pub open spec fn after_swap(
        self,
        limit: u64,
        amount_in: int,
        out: int,
        direction: u8,
    ) -> BondingCurve {
        if is_sell(direction) {
            self.with_reserves(
                limit,
                (self.reserve_token + amount_in) as u64,
                (self.reserve_lamport - out) as u64,
            )
        } else {
            self.with_reserves(
                limit,
                (self.reserve_token - out) as u64,
                (self.reserve_lamport + amount_in) as u64,
            )
        }
    }

    /// Overwrites both reserves and reports whether the currency reserve is at
    /// or above the completion threshold; if so the curve is completed.
    pub fn update_reserves(
        &mut self,
        config: &Config,
        reserve_token: u64,
        reserve_lamport: u64,
    ) -> (r: bool)
        ensures
            *final(self) == old(self).with_reserves(
                config.curve_limit,
                reserve_token,
                reserve_lamport,
            ),
            r == (reserve_lamport >= config.curve_limit),
    {
        self.reserve_token = reserve_token;
        self.reserve_lamport = reserve_lamport;
        if reserve_lamport >= config.curve_limit {
            self.is_completed = true;
            return true;
        }
        false
    }

    /// Quotes a swap of `amount` in `direction` (1 sells tokens, any other
    /// value buys them): the input left after the fee of that direction, and
    /// the payout of the constant-product formula on it.
    pub fn cal_amount_out(
        &self,
        amount: u64,
        direction: u8,
        platform_sell_fee: u64,
        platform_buy_fee: u64,
    ) -> (r: Result<(u64, u64), PumpfunError>)
        requires
            platform_sell_fee <= 100,
            platform_buy_fee <= 100,
        ensures
            r == quote_spec(
                self.reserve_token,
                self.reserve_lamport,
                amount,
                direction,
                platform_sell_fee,
                platform_buy_fee,
            ),
            r matches Ok((adjusted, out)) ==> adjusted <= amount && out <= output_reserve(
                self.reserve_token,
                self.reserve_lamport,
                direction,
            ),
    {
        quote(
            self.reserve_token,
            self.reserve_lamport,
            amount,
            direction,
            platform_sell_fee,
            platform_buy_fee,
        )
    }

    /// The payout a swap of `amount` would give now, with no cap, no minimum
    /// and no change of state.
    pub fn simulate_swap(&self, config: &Config, amount: u64, direction: u8) -> (r: Result<
        u64,
        PumpfunError,
    >)
        requires
            config.wf(),
        ensures
            amount == 0 ==> r == Err::<u64, PumpfunError>(PumpfunError::InvalidAmount),
            amount > 0 ==> (match quote_spec(
                self.reserve_token,
                self.reserve_lamport,
                amount,
                direction,
                config.platform_sell_fee,
                config.platform_buy_fee,
            ) {
                Ok(q) => r == Ok::<u64, PumpfunError>(q.1),
                Err(e) => r == Err::<u64, PumpfunError>(e),
            }),
    {
        if amount == 0 {
            return Err(PumpfunError::InvalidAmount);
        }
        match self.cal_amount_out(
            amount,
            direction,
            config.platform_sell_fee,
            config.platform_buy_fee,
        ) {
            Ok((_, out)) => Ok(out),
            Err(e) => Err(e),
        }
    }

    /// The error a swap of `amount` fails with, if any, checked in this
    /// order: nothing requested; the input reserve cannot take the
    /// fee-adjusted input; the payout is below `minimum`; the input reserve
    /// cannot take the whole input. A buy whose input is capped to nothing
    /// pays nothing, so it fails only on a positive minimum.
    pub open spec fn swap_error(
        self,
        config: Config,
        amount: u64,
        direction: u8,
        minimum: u64,
    ) -> Option<PumpfunError> {
        let amount_in = self.capped_amount(config.curve_limit, amount, direction);
        let adjusted = self.adjusted_in(config, amount_in, direction);
        if amount == 0 {
            Some(PumpfunError::InvalidAmount)
        } else if is_sell(direction) && self.reserve_token + adjusted > u64::MAX {
            Some(PumpfunError::OverflowOrUnderflowOccurred)
        } else if self.payout(config, amount_in, direction) < minimum {
            Some(PumpfunError::ReturnAmountTooSmall)
        } else if is_sell(direction) && self.reserve_token + amount_in > u64::MAX {
            Some(PumpfunError::OverflowOrUnderflowOccurred)
        } else {
            None
        }
    }

    /// Swaps `amount` against the curve: 1 sells tokens for currency, any
    /// other value buys tokens with currency. A buy spends at most what
    /// brings the currency reserve up to the completion threshold; the rest
    /// of the request is not spent, and once the threshold is reached a buy
    /// spends and pays nothing. The fee of the direction is taken from
    /// the input, the rest is priced by the constant-product formula, and the
    /// swap fails if the payout is below `minimum_receive_amount`. On
    /// success the input reserve grows by the whole input and the output
    /// reserve shrinks by the payout.
    pub fn swap(
        &mut self,
        config: &Config,
        amount: u64,
        direction: u8,
        minimum_receive_amount: u64,
    ) -> (r: Result<SwapOutcome, PumpfunError>)
        requires
            config.wf(),
        ensures
            amount == 0 ==> r == Err::<SwapOutcome, PumpfunError>(PumpfunError::InvalidAmount),
            r matches Err(e) ==> old(self).swap_error(
                *config,
                amount,
                direction,
                minimum_receive_amount,
            ) == Some(e),
            r is Err ==> *final(self) == *old(self),
            r is Ok <==> old(self).swap_error(
                *config,
                amount,
                direction,
                minimum_receive_amount,
            ) is None,
            r matches Ok(o) ==> {
                &&& o.amount_in == old(self).capped_amount(config.curve_limit, amount, direction)
                &&& o.adjusted_amount == old(self).adjusted_in(
                    *config,
                    o.amount_in as int,
                    direction,
                )
                &&& o.fee_amount == o.amount_in - o.adjusted_amount
                &&& o.amount_out == old(self).payout(*config, o.amount_in as int, direction)
                &&& *final(self) == old(self).after_swap(
                    config.curve_limit,
                    o.amount_in as int,
                    o.amount_out as int,
                    direction,
                )
                &&& o.completed == (!old(self).is_completed && final(self).is_completed)
            },
            r matches Ok(o) ==> final(self).reserve_token * final(self).reserve_lamport
                + input_reserve(old(self).reserve_token, old(self).reserve_lamport, direction)
                + o.amount_in >= old(self).reserve_token * old(self).reserve_lamport,
            r matches Ok(o) ==> (o.amount_out * (input_reserve(
                old(self).reserve_token,
                old(self).reserve_lamport,
                direction,
            ) + o.adjusted_amount) <= output_reserve(
                old(self).reserve_token,
                old(self).reserve_lamport,
                direction,
            ) * o.adjusted_amount ==> final(self).reserve_token * final(self).reserve_lamport
                >= old(self).reserve_token * old(self).reserve_lamport),
    {
        if amount == 0 {
            return Err(PumpfunError::InvalidAmount);
        }
        let amount_in: u64 = if direction == 1 {
            amount
        } else {
            let room: u64 = if self.reserve_lamport >= config.curve_limit {
                0
            } else {
                config.curve_limit - self.reserve_lamport
            };
            if amount <= room {
                amount
            } else {
                room
            }
        };
        proof {
            assert(amount_in == old(self).capped_amount(config.curve_limit, amount, direction));
            lemma_fee_adjusted_bounds(
                amount_in as int,
                fee_for(direction, config.platform_sell_fee, config.platform_buy_fee) as int,
            );
            let adjusted = old(self).adjusted_in(*config, amount_in as int, direction);
            let (token, lamport) = (self.reserve_token as int, self.reserve_lamport as int);
            lemma_product_out_bounds(token, lamport, adjusted);
            lemma_product_out_bounds(lamport, token, adjusted);
        }
        let (adjusted, out) = match self.cal_amount_out(
            amount_in,
            direction,
            config.platform_sell_fee,
            config.platform_buy_fee,
        ) {
            Ok(q) => q,
            Err(e) => {
                return Err(e);
            },
        };
        if out < minimum_receive_amount {
            return Err(PumpfunError::ReturnAmountTooSmall);
        }
        proof {
            if direction == 1 {
                lemma_swap_product_bound(
                    self.reserve_token as int,
                    self.reserve_lamport as int,
                    amount_in as int,
                    adjusted as int,
                );
                if out * (self.reserve_token + adjusted) <= self.reserve_lamport * adjusted {
                    lemma_swap_keeps_product(
                        self.reserve_token as int,
                        self.reserve_lamport as int,
                        amount_in as int,
                        adjusted as int,
                    );
                }
            } else {
                lemma_swap_product_bound(
                    self.reserve_lamport as int,
                    self.reserve_token as int,
                    amount_in as int,
                    adjusted as int,
                );
                if out * (self.reserve_lamport + adjusted) <= self.reserve_token * adjusted {
                    lemma_swap_keeps_product(
                        self.reserve_lamport as int,
                        self.reserve_token as int,
                        amount_in as int,
                        adjusted as int,
                    );
                }
            }
        }
        let was_completed = self.is_completed;
        let (new_token, new_lamport) = if direction == 1 {
            let token = match self.reserve_token.checked_add(amount_in) {
                Some(t) => t,
                None => {
                    return Err(PumpfunError::OverflowOrUnderflowOccurred);
                },
            };
            (token, self.reserve_lamport - out)
        } else {
            (self.reserve_token - out, self.reserve_lamport + amount_in)
        };
        self.update_reserves(config, new_token, new_lamport);
        proof {
            let (t0, l0) = (old(self).reserve_token as int, old(self).reserve_lamport as int);
            let (t1, l1) = (self.reserve_token as int, self.reserve_lamport as int);
            assert(t0 * l0 == l0 * t0 && t1 * l1 == l1 * t1) by (nonlinear_arith);
        }
        Ok(
            SwapOutcome {
                amount_in,
                adjusted_amount: adjusted,
                fee_amount: amount_in - adjusted,
                amount_out: out,
                completed: !was_completed && self.is_completed,
            },
        )
    }

    /// Hands the whole reserves of a completed curve to the administrator:
    /// the currency raised (seed excluded) and every token. The reserves are
    /// then zero; the curve stays completed.
    pub fn withdraw(&mut self, config: &Config, admin: Address) -> (r: Result<
        WithdrawOutcome,
        PumpfunError,
    >)
        ensures
            admin != config.authority ==> r == Err::<WithdrawOutcome, PumpfunError>(
                PumpfunError::IncorrectAuthority,
            ),
            admin == config.authority && !old(self).is_completed ==> r == Err::<
                WithdrawOutcome,
                PumpfunError,
            >(PumpfunError::CurveNotCompleted),
            admin == config.authority && old(self).is_completed && old(self).reserve_lamport < old(
                self,
            ).init_lamport ==> r == Err::<WithdrawOutcome, PumpfunError>(
                PumpfunError::OverflowOrUnderflowOccurred,
            ),
            r is Err ==> *final(self) == *old(self),
            r is Ok <==> admin == config.authority && old(self).is_completed && old(
                self,
            ).reserve_lamport >= old(self).init_lamport,
            r matches Ok(w) ==> {
                &&& w.lamport_amount == old(self).reserve_lamport - old(self).init_lamport
                &&& w.token_amount == old(self).reserve_token
                &&& *final(self) == old(self).with_reserves(config.curve_limit, 0, 0)
            },
    {
        if admin != config.authority {
            return Err(PumpfunError::IncorrectAuthority);
        }
        if !self.is_completed {
            return Err(PumpfunError::CurveNotCompleted);
        }
        if self.reserve_lamport < self.init_lamport {
            return Err(PumpfunError::OverflowOrUnderflowOccurred);
        }
        let outcome = WithdrawOutcome {
            lamport_amount: self.reserve_lamport - self.init_lamport,
            token_amount: self.reserve_token,
        };
        self.update_reserves(config, 0, 0);
        Ok(outcome)
    }

    /// Settles the platform's migration fee on a completed curve: the fee is
    /// taken from the currency raised (seed excluded), the operational
    /// reserve is set aside, and the rest seeds the external pool together
    /// with the tokens that match it at the current price; the other tokens
    /// are the platform's. Only the configured team wallet may receive the
    /// fee.
    pub fn transfer_fee(
        &self,
        config: &Config,
        team_wallet: Address,
        operational_reserve: u64,
    ) -> (r: Result<Settlement, PumpfunError>)
        requires
            config.wf(),
        ensures
            team_wallet != config.team_wallet ==> r == Err::<Settlement, PumpfunError>(
                PumpfunError::IncorrectAuthority,
            ),
            team_wallet == config.team_wallet && !self.is_completed ==> r == Err::<
                Settlement,
                PumpfunError,
            >(PumpfunError::CurveNotCompleted),
            team_wallet == config.team_wallet && self.is_completed ==> r == split_spec(
                self.reserve_lamport,
                self.reserve_token,
                self.init_lamport,
                config.platform_migration_fee,
                operational_reserve,
                0,
            ),
            r matches Ok(s) ==> s.fee_amount + s.operational_reserve + s.pool_currency_amount
                == self.reserve_lamport - self.init_lamport,
            r matches Ok(s) ==> s.pool_token_amount == pool_token_share(
                s.pool_currency_amount as int,
                self.reserve_token as int,
                self.reserve_lamport as int,
            ),
            r matches Ok(s) ==> s.pool_token_amount + s.fee_token_amount == self.reserve_token,
    {
        if team_wallet != config.team_wallet {
            return Err(PumpfunError::IncorrectAuthority);
        }
        if !self.is_completed {
            return Err(PumpfunError::CurveNotCompleted);
        }
        split_reserves(
            self.reserve_lamport,
            self.reserve_token,
            self.init_lamport,
            config.platform_migration_fee,
            operational_reserve,
            0,
        )
    }
}


/// The curve a launch creates, or why the launch is refused: the virtual
/// currency reserve, the supply and the decimals are checked against their
/// rules in that order, then the creator against the whitelist if it is
/// enabled.
pub open spec fn launch_spec(
    config: Config,
    listed: bool,
    creator: Address,
    token_mint: Address,
    decimals: u8,
    token_supply: u64,
    virtual_lamport_reserves: u64,
) -> Result<BondingCurve, PumpfunError> {
    if config.lamport_amount_config.verdict_u64(virtual_lamport_reserves) is Err {
        Err(config.lamport_amount_config.verdict_u64(virtual_lamport_reserves)->Err_0)
    } else if config.token_supply_config.verdict_u64(token_supply) is Err {
        Err(config.token_supply_config.verdict_u64(token_supply)->Err_0)
    } else if config.token_decimals_config.verdict_u8(decimals) is Err {
        Err(config.token_decimals_config.verdict_u8(decimals)->Err_0)
    } else if config.whitelist_enabled && !listed {
        Err(PumpfunError::CreatorNotWhitelisted)
    } else {
        Ok(
            BondingCurve {
                token_mint,
                creator,
                init_lamport: virtual_lamport_reserves,
                reserve_lamport: virtual_lamport_reserves,
                reserve_token: (token_supply * config.init_bonding_curve / 100) as u64,
                is_completed: false,
            },
        )
    }
}

/// Launches a sale of `token_supply` units of `token_mint` by `creator`. The
/// curve starts with `virtual_lamport_reserves` as both its seed and its
/// currency reserve, and with the configured percentage of the supply
/// (rounded down) as its token reserve; the rest of the supply is the team's.
pub fn launch(
    config: &Config,
    whitelist: &WhitelistRegistry,
    creator: Address,
    token_mint: Address,
    decimals: u8,
    token_supply: u64,
    virtual_lamport_reserves: u64,
) -> (r: Result<BondingCurve, PumpfunError>)
    requires
        config.wf(),
    ensures
        r == launch_spec(
            *config,
            whitelist.view().contains(creator),
            creator,
            token_mint,
            decimals,
            token_supply,
            virtual_lamport_reserves,
        ),
        r matches Ok(c) ==> c.reserve_token <= token_supply,
{
    config.lamport_amount_config.validate(&virtual_lamport_reserves)?;
    config.token_supply_config.validate(&token_supply)?;
    config.token_decimals_config.validate(&decimals)?;
    if config.whitelist_enabled && !whitelist.contains(creator) {
        return Err(PumpfunError::CreatorNotWhitelisted);
    }
    proof {
        assert(token_supply * config.init_bonding_curve <= token_supply * 100) by (nonlinear_arith)
            requires
                config.init_bonding_curve <= 100,
        ;
        assert(0 <= token_supply * config.init_bonding_curve) by (nonlinear_arith);
        vstd::arithmetic::div_mod::lemma_multiply_divide_le(
            token_supply * config.init_bonding_curve,
            100,
            token_supply as int,
        );
        vstd::arithmetic::div_mod::lemma_div_is_ordered(
            0,
            token_supply * config.init_bonding_curve,
            100,
        );
    }
    let on_curve: u64 = ((token_supply as u128 * config.init_bonding_curve as u128) / 100) as u64;
    Ok(
        BondingCurve {
            token_mint,
            creator,
            init_lamport: virtual_lamport_reserves,
            reserve_lamport: virtual_lamport_reserves,
            reserve_token: on_curve,
            is_completed: false,
        },
    )
}


/// Completion is signalled once: after a reserve update has completed a
/// curve, every later update leaves it completed, so no later update counts
/// as the one that completed it.
pub proof fn lemma_completion_signalled_once(
    curve: BondingCurve,
    limit: u64,
    token_1: u64,
    lamport_1: u64,
    token_2: u64,
    lamport_2: u64,
)
    requires
        curve.with_reserves(limit, token_1, lamport_1).is_completed,
    ensures
        ({
            let first = curve.with_reserves(limit, token_1, lamport_1);
            let second = first.with_reserves(limit, token_2, lamport_2);
            &&& second.is_completed
            &&& !(!first.is_completed && second.is_completed)
        }),
{
}

} // verus!
