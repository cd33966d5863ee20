//! The global parameters of the sale program and their administration.
use crate::address::Address;
use crate::amount_config::AmountConfig;
use crate::error::PumpfunError;
use vstd::prelude::*;

verus! {

/// Global parameters read by every sale operation. Percentages are whole
/// numbers in `0..=100`; amounts are minor units of the base currency.
pub struct Config {
    /// The administrator.
    pub authority: Address,
    /// The nominee of a pending two-step handover of `authority`, if any.
    pub pending_authority: Option<Address>,
    /// The account that receives platform fees.
    pub team_wallet: Address,
    /// Percentage of a new token's supply placed on its bonding curve; the
    /// rest goes to the team wallet.
    pub init_bonding_curve: u64,
    /// Fee percentage taken from buys.
    pub platform_buy_fee: u64,
    /// Fee percentage taken from sells.
    pub platform_sell_fee: u64,
    /// Fee percentage taken from the currency raised when a sale settles.
    pub platform_migration_fee: u64,
    /// Currency reserve at which a bonding curve completes.
    pub curve_limit: u64,
    /// Rule for a launch's virtual currency reserve.
    pub lamport_amount_config: AmountConfig<u64>,
    /// Rule for a launch's token supply.
    pub token_supply_config: AmountConfig<u64>,
    /// Rule for a launch's token decimals.
    pub token_decimals_config: AmountConfig<u8>,
    /// Set once the parameters have been configured.
    pub initialized: bool,
    /// Administrator of the creator whitelist.
    pub global_authority: Address,
    /// When set, only whitelisted creators may launch.
    pub whitelist_enabled: bool,
}

impl Config {
    /// The parameters are in range: every percentage is at most 100 and the
    /// completion threshold is positive.
    pub open spec fn wf(&self) -> bool {
        &&& self.init_bonding_curve <= 100
        &&& self.platform_buy_fee <= 100
        &&& self.platform_sell_fee <= 100
        &&& self.platform_migration_fee <= 100
        &&& self.curve_limit > 0
    }

    /// Whether the parameters are in range.
    pub fn is_valid(&self) -> (r: bool)
        ensures
            r == self.wf(),
    {
        self.init_bonding_curve <= 100 && self.platform_buy_fee <= 100 && self.platform_sell_fee
            <= 100 && self.platform_migration_fee <= 100 && self.curve_limit > 0
    }

    /// Replaces the parameters by `new_config` and marks them initialized.
    /// Once initialized, only the current authority may do so.
    pub fn configure(&mut self, signer: Address, new_config: Config) -> (r: Result<
        (),
        PumpfunError,
    >)
        ensures
            old(self).initialized && signer != old(self).authority ==> r == Err::<
                (),
                PumpfunError,
            >(PumpfunError::IncorrectAuthority),
            (!old(self).initialized || signer == old(self).authority) && !new_config.wf() ==> r
                == Err::<(), PumpfunError>(PumpfunError::ValueInvalid),
            r is Err ==> *final(self) == *old(self),
            r is Ok ==> (*final(self) == Config { initialized: true, ..new_config }),
            r is Ok <==> ((!old(self).initialized || signer == old(self).authority)
                && new_config.wf()),
    {
        if self.initialized && signer != self.authority {
            return Err(PumpfunError::IncorrectAuthority);
        }
        if !new_config.is_valid() {
            return Err(PumpfunError::ValueInvalid);
        }
        *self = Config { initialized: true, ..new_config };
        Ok(())
    }

    /// First step of an authority handover: the authority names its
    /// successor.
    pub fn nominate_authority(&mut self, signer: Address, new_admin: Address) -> (r: Result<
        (),
        PumpfunError,
    >)
        ensures
            signer != old(self).authority ==> r == Err::<(), PumpfunError>(
                PumpfunError::IncorrectAuthority,
            ) && *final(self) == *old(self),
            signer == old(self).authority ==> r is Ok && (*final(self) == Config {
                pending_authority: Some(new_admin),
                ..*old(self)
            }),
    {
        if signer != self.authority {
            return Err(PumpfunError::IncorrectAuthority);
        }
        self.pending_authority = Some(new_admin);
        Ok(())
    }

    /// Second step of an authority handover: the nominee takes the role.
    pub fn accept_authority(&mut self, signer: Address) -> (r: Result<(), PumpfunError>)
        ensures
            old(self).pending_authority != Some(signer) ==> r == Err::<(), PumpfunError>(
                PumpfunError::IncorrectAuthority,
            ) && *final(self) == *old(self),
            old(self).pending_authority == Some(signer) ==> r is Ok && (*final(self) == Config {
                authority: signer,
                pending_authority: None,
                ..*old(self)
            }),
    {
        match self.pending_authority {
            Some(nominee) => {
                if nominee != signer {
                    return Err(PumpfunError::IncorrectAuthority);
                }
            },
            None => {
                return Err(PumpfunError::IncorrectAuthority);
            },
        }
        self.authority = signer;
        self.pending_authority = None;
        Ok(())
    }
}

} // verus!
