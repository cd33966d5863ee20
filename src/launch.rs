//! A token launch with an explicit phase: a presale, its processing, an open
//! sale, and completion once the currency reserve reaches the threshold.
use crate::address::Address;
use crate::config::Config;
use crate::curve::SwapOutcome;
use crate::error::PumpfunError;
use crate::pricing::{
    fee_adjusted, fee_for, input_reserve, is_sell, lemma_fee_adjusted_bounds,
    lemma_product_out_bounds, lemma_swap_keeps_product, lemma_swap_product_bound, output_reserve,
    product_out, quote,
};
use crate::settlement::{pool_token_share, split_reserves, split_spec, Settlement};
use vstd::prelude::*;

verus! {

/// The phase of a launch. Phases only move forward.
#[derive(Clone, Copy, Debug, PartialEq, Eq, Structural)]
pub enum LaunchPhase {
    Presale,
    ProcessingPresale,
    OpenSale,
    Completed,
}

impl LaunchPhase {
    /// Fails with `IncorrectLaunchPhase` unless this is `phase`.
    pub fn assert_eq(&self, phase: &Self) -> (r: Result<(), PumpfunError>)
        ensures
            *self == *phase ==> r is Ok,
            *self != *phase ==> r == Err::<(), PumpfunError>(PumpfunError::IncorrectLaunchPhase),
    {
        if *self != *phase {
            Err(PumpfunError::IncorrectLaunchPhase)
        } else {
            Ok(())
        }
    }
}

/// The live state of one phased launch.
#[derive(Clone, Copy, Debug)]
pub struct TokenLaunch {
    pub token: Address,
    pub creator: Address,
    /// The virtual currency seed the launch started from.
    pub init_lamport: u64,
    /// Currency reserve, in minor units.
    pub reserve_lamport: u64,
    /// Token reserve, in minor units.
    pub reserve_token: u64,
    /// When the presale began, in seconds since the epoch.
    pub start_timestamp: i64,
    /// Length of the presale, in seconds.
    pub presale_time: u64,
    pub launch_phase: LaunchPhase,
}

impl TokenLaunch {
    /// The launch after its reserves are overwritten; it is completed if
    /// the currency reserve reaches `limit`, and otherwise keeps its phase.
    pub open spec fn with_reserves(
        self,
        limit: u64,
        reserve_token: u64,
        reserve_lamport: u64,
    ) -> TokenLaunch {
        TokenLaunch {
            reserve_token,
            reserve_lamport,
            launch_phase: if reserve_lamport >= limit {
                LaunchPhase::Completed
            } else {
                self.launch_phase
            },
            ..self
        }
    }

    /// The fee-adjusted input of a swap of `amount`.
    pub open spec fn adjusted_in(self, config: Config, amount: u64, direction: u8) -> int {
        fee_adjusted(
            amount as int,
            fee_for(direction, config.platform_sell_fee, config.platform_buy_fee) as int,
        )
    }

    /// The payout of a swap of `amount`.
    pub open spec fn payout(self, config: Config, amount: u64, direction: u8) -> int {
        let adjusted = self.adjusted_in(config, amount, direction);
        if is_sell(direction) {
            product_out(self.reserve_token as int, self.reserve_lamport as int, adjusted)
        } else {
            product_out(self.reserve_lamport as int, self.reserve_token as int, adjusted)
        }
    }

    /// The error a swap of `amount` fails with, if any: nothing to spend, or
    /// an input reserve that cannot take the fee-adjusted input or the whole
    /// input.
    pub open spec fn swap_error(self, config: Config, amount: u64, direction: u8) -> Option<
        PumpfunError,
    > {
        let reserve_in = if is_sell(direction) {
            self.reserve_token
        } else {
            self.reserve_lamport
        };
        if amount == 0 {
            Some(PumpfunError::InvalidAmount)
        } else if reserve_in + self.adjusted_in(config, amount, direction) > u64::MAX {
            Some(PumpfunError::OverflowOrUnderflowOccurred)
        } else if reserve_in + amount > u64::MAX {
            Some(PumpfunError::OverflowOrUnderflowOccurred)
        } else {
            None
        }
    }

    /// The launch after a swap of `amount` paying out `out`: the input
    /// reserve grows by the whole input, the output reserve shrinks by `out`.
    pub open spec fn after_swap(
        self,
        limit: u64,
        amount: u64,
        out: int,
        direction: u8,
    ) -> TokenLaunch {
        if is_sell(direction) {
            self.with_reserves(
                limit,
                (self.reserve_token + amount) as u64,
                (self.reserve_lamport - out) as u64,
            )
        } else {
            self.with_reserves(
                limit,
                (self.reserve_token - out) as u64,
                (self.reserve_lamport + amount) as u64,
            )
        }
    }

    /// Overwrites both reserves; once the currency reserve reaches the
    /// completion threshold the launch is completed.
    pub fn update_reserves(&mut self, config: &Config, reserve_token: u64, reserve_lamport: u64)
        ensures
            *final(self) == old(self).with_reserves(
                config.curve_limit,
                reserve_token,
                reserve_lamport,
            ),
    {
        self.reserve_token = reserve_token;
        self.reserve_lamport = reserve_lamport;
        if reserve_lamport >= config.curve_limit {
            self.launch_phase = LaunchPhase::Completed;
        }
    }

    /// Swaps `amount` against the launch's reserves: 1 (`style`) sells tokens
    /// for currency, any other value buys tokens with currency. Any phase may
    /// swap; there is no cap and no minimum. The fee of the direction is
    /// taken from the input and the rest is priced by the constant-product
    /// formula.
    pub fn swap(&mut self, config: &Config, amount: u64, style: u8) -> (r: Result<
        SwapOutcome,
        PumpfunError,
    >)
        requires
            config.wf(),
        ensures
            amount == 0 ==> r == Err::<SwapOutcome, PumpfunError>(PumpfunError::InvalidAmount),
            r matches Err(e) ==> old(self).swap_error(*config, amount, style) == Some(e),
            r is Err ==> *final(self) == *old(self),
            r is Ok <==> old(self).swap_error(*config, amount, style) is None,
            r matches Ok(o) ==> {
                &&& o.amount_in == amount
                &&& o.adjusted_amount == old(self).adjusted_in(*config, amount, style)
                &&& o.fee_amount == amount - o.adjusted_amount
                &&& o.amount_out == old(self).payout(*config, amount, style)
                &&& *final(self) == old(self).after_swap(
                    config.curve_limit,
                    amount,
                    o.amount_out as int,
                    style,
                )
                &&& o.completed == (old(self).launch_phase != LaunchPhase::Completed
                    && final(self).launch_phase == LaunchPhase::Completed)
            },
            r matches Ok(o) ==> final(self).reserve_token * final(self).reserve_lamport
                + input_reserve(old(self).reserve_token, old(self).reserve_lamport, style)
                + o.amount_in >= old(self).reserve_token * old(self).reserve_lamport,
            r matches Ok(o) ==> (o.amount_out * (input_reserve(
                old(self).reserve_token,
                old(self).reserve_lamport,
                style,
            ) + o.adjusted_amount) <= output_reserve(
                old(self).reserve_token,
                old(self).reserve_lamport,
                style,
            ) * o.adjusted_amount ==> final(self).reserve_token * final(self).reserve_lamport
                >= old(self).reserve_token * old(self).reserve_lamport),
    {
        if amount == 0 {
            return Err(PumpfunError::InvalidAmount);
        }
        proof {
            lemma_fee_adjusted_bounds(
                amount as int,
                fee_for(style, config.platform_sell_fee, config.platform_buy_fee) as int,
            );
            let adjusted = old(self).adjusted_in(*config, amount, style);
            let (token, lamport) = (self.reserve_token as int, self.reserve_lamport as int);
            lemma_product_out_bounds(token, lamport, adjusted);
            lemma_product_out_bounds(lamport, token, adjusted);
        }
        let (adjusted, out) = match quote(
            self.reserve_token,
            self.reserve_lamport,
            amount,
            style,
            config.platform_sell_fee,
            config.platform_buy_fee,
        ) {
            Ok(q) => q,
            Err(e) => {
                return Err(e);
            },
        };
        proof {
            if style == 1 {
                lemma_swap_product_bound(
                    self.reserve_token as int,
                    self.reserve_lamport as int,
                    amount as int,
                    adjusted as int,
                );
                if out * (self.reserve_token + adjusted) <= self.reserve_lamport * adjusted {
                    lemma_swap_keeps_product(
                        self.reserve_token as int,
                        self.reserve_lamport as int,
                        amount as int,
                        adjusted as int,
                    );
                }
            } else {
                lemma_swap_product_bound(
                    self.reserve_lamport as int,
                    self.reserve_token as int,
                    amount as int,
                    adjusted as int,
                );
                if out * (self.reserve_lamport + adjusted) <= self.reserve_token * adjusted {
                    lemma_swap_keeps_product(
                        self.reserve_lamport as int,
                        self.reserve_token as int,
                        amount as int,
                        adjusted as int,
                    );
                }
            }
        }
        let was_completed = self.launch_phase == LaunchPhase::Completed;
        let (new_token, new_lamport) = if style == 1 {
            let token = match self.reserve_token.checked_add(amount) {
                Some(t) => t,
                None => {
                    return Err(PumpfunError::OverflowOrUnderflowOccurred);
                },
            };
            (token, self.reserve_lamport - out)
        } else {
            let lamport = match self.reserve_lamport.checked_add(amount) {
                Some(l) => l,
                None => {
                    return Err(PumpfunError::OverflowOrUnderflowOccurred);
                },
            };
            (self.reserve_token - out, lamport)
        };
        self.update_reserves(config, new_token, new_lamport);
        proof {
            let (t0, l0) = (old(self).reserve_token as int, old(self).reserve_lamport as int);
            let (t1, l1) = (self.reserve_token as int, self.reserve_lamport as int);
            assert(t0 * l0 == l0 * t0 && t1 * l1 == l1 * t1) by (nonlinear_arith);
        }
        Ok(
            SwapOutcome {
                amount_in: amount,
                adjusted_amount: adjusted,
                fee_amount: amount - adjusted,
                amount_out: out,
                completed: !was_completed && self.launch_phase == LaunchPhase::Completed,
            },
        )
    }

    /// A buy of `amount` for the single privileged early purchase: the same
    /// pricing and reserve update as a buying swap.
    pub fn snipe(&mut self, config: &Config, amount: u64) -> (r: Result<SwapOutcome, PumpfunError>)
        requires
            config.wf(),
        ensures
            amount == 0 ==> r == Err::<SwapOutcome, PumpfunError>(PumpfunError::InvalidAmount),
            r matches Err(e) ==> old(self).swap_error(*config, amount, 0) == Some(e),
            r is Err ==> *final(self) == *old(self),
            r is Ok <==> old(self).swap_error(*config, amount, 0) is None,
            r matches Ok(o) ==> {
                &&& o.amount_in == amount
                &&& o.adjusted_amount == old(self).adjusted_in(*config, amount, 0)
                &&& o.fee_amount == amount - o.adjusted_amount
                &&& o.amount_out == old(self).payout(*config, amount, 0)
                &&& *final(self) == old(self).after_swap(
                    config.curve_limit,
                    amount,
                    o.amount_out as int,
                    0,
                )
                &&& o.completed == (old(self).launch_phase != LaunchPhase::Completed
                    && final(self).launch_phase == LaunchPhase::Completed)
            },
            r matches Ok(o) ==> final(self).reserve_token * final(self).reserve_lamport
                + old(self).reserve_lamport + o.amount_in >= old(self).reserve_token
                * old(self).reserve_lamport,
            r matches Ok(o) ==> (o.amount_out * (old(self).reserve_lamport + o.adjusted_amount)
                <= old(self).reserve_token * o.adjusted_amount ==> final(self).reserve_token
                * final(self).reserve_lamport >= old(self).reserve_token
                * old(self).reserve_lamport),
    {
        self.swap(config, amount, 0)
    }

    /// Settles a completed launch for migration to the external pool: the
    /// migration fee is taken from the currency raised (seed excluded), the
    /// operational reserve is set aside, the seed is deducted once more, and
    /// the rest seeds the pool with the tokens that match it at the current
    /// price; the other tokens are the platform's. The reserves are then
    /// zero. Only the authority may migrate.
    pub fn migrate(
        &mut self,
        config: &Config,
        admin: Address,
        operational_reserve: u64,
    ) -> (r: Result<Settlement, PumpfunError>)
        requires
            config.wf(),
        ensures
            admin != config.authority ==> r == Err::<Settlement, PumpfunError>(
                PumpfunError::IncorrectAuthority,
            ),
            admin == config.authority && old(self).launch_phase != LaunchPhase::Completed ==> r
                == Err::<Settlement, PumpfunError>(PumpfunError::CurveNotCompleted),
            admin == config.authority && old(self).launch_phase == LaunchPhase::Completed ==> r
                == split_spec(
                old(self).reserve_lamport,
                old(self).reserve_token,
                old(self).init_lamport,
                config.platform_migration_fee,
                operational_reserve,
                old(self).init_lamport,
            ),
            r is Err ==> *final(self) == *old(self),
            r is Ok ==> *final(self) == old(self).with_reserves(config.curve_limit, 0, 0),
            r is Ok ==> final(self).launch_phase == LaunchPhase::Completed,
            r matches Ok(s) ==> s.fee_amount + s.operational_reserve + s.pool_currency_amount
                + old(self).init_lamport == old(self).reserve_lamport - old(self).init_lamport,
            r matches Ok(s) ==> s.pool_token_amount == pool_token_share(
                s.pool_currency_amount as int,
                old(self).reserve_token as int,
                old(self).reserve_lamport as int,
            ),
            r matches Ok(s) ==> s.pool_token_amount + s.fee_token_amount == old(
                self,
            ).reserve_token,
    {
        if admin != config.authority {
            return Err(PumpfunError::IncorrectAuthority);
        }
        if self.launch_phase != LaunchPhase::Completed {
            return Err(PumpfunError::CurveNotCompleted);
        }
        let settlement = split_reserves(
            self.reserve_lamport,
            self.reserve_token,
            self.init_lamport,
            config.platform_migration_fee,
            operational_reserve,
            self.init_lamport,
        )?;
        self.update_reserves(config, 0, 0);
        Ok(settlement)
    }
}


/// A launch's phase never leaves `Completed`: every reserve update keeps a
/// completed launch completed.
pub proof fn lemma_completed_launch_stays_completed(
    launch: TokenLaunch,
    limit: u64,
    reserve_token: u64,
    reserve_lamport: u64,
)
    requires
        launch.launch_phase == LaunchPhase::Completed,
    ensures
        launch.with_reserves(limit, reserve_token, reserve_lamport).launch_phase
            == LaunchPhase::Completed,
{
}

} // verus!
