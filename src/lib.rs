//! Bonding-curve token sale: constant-product pricing with platform fees,
//! reserve accounting, completion detection, settlement of the reserves for
//! an external liquidity pool, and the administrative gates around them.
//!
//! Value transfers, account custody and the external pool call are left to
//! the caller: every operation here computes the amounts to move and the new
//! state, and leaves the state untouched whenever it fails.
pub mod address;
pub mod amount_config;
pub mod config;
pub mod curve;
pub mod error;
pub mod launch;
pub mod pricing;
pub mod settlement;
pub mod whitelist;

pub use address::Address;
pub use amount_config::AmountConfig;
pub use config::Config;
pub use curve::{launch, BondingCurve, SwapOutcome, WithdrawOutcome};
pub use error::PumpfunError;
pub use launch::{LaunchPhase, TokenLaunch};
pub use pricing::{adjust_for_fee, constant_product_out, quote};
pub use settlement::{Settlement, MARKET_CREATION_RESERVE, POOL_CREATION_RESERVE};
pub use whitelist::{Whitelist, WhitelistRegistry};
