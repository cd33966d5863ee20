use vstd::prelude::*;

verus! {

/// Every way an operation of this library can fail. A failed operation
/// leaves all state it was given unchanged.
#[derive(Clone, Copy, Debug, PartialEq, Eq, Structural)]
pub enum PumpfunError {
    /// The requested swap amount is zero.
    InvalidAmount,
    /// The computed output is below the caller's minimum.
    ReturnAmountTooSmall,
    /// A checked integer operation overflowed or underflowed.
    OverflowOrUnderflowOccurred,
    /// The sale has not reached its completion threshold.
    CurveNotCompleted,
    /// The launch is not in the phase the operation expects.
    IncorrectLaunchPhase,
    /// A value is below the configured minimum.
    ValueTooSmall,
    /// A value is above the configured maximum.
    ValueTooLarge,
    /// A value is not among the configured options, or a parameter set is
    /// out of its allowed ranges.
    ValueInvalid,
    /// The caller is not the authority the operation requires.
    IncorrectAuthority,
    /// The caller is not the global authority that administers the whitelist.
    InvalidGlobalAuthority,
    /// The creator already has a whitelist entry.
    WhitelistEntryExists,
    /// The creator has no whitelist entry.
    WhitelistEntryMissing,
    /// The whitelist is enabled and the creator is not on it.
    CreatorNotWhitelisted,
}

} // verus!
