use vstd::prelude::*;

verus! {

/// The failure kinds a relay operation can report.
///
/// Every precondition check is local and fails fast: the operation aborts
/// with the specific kind below and no state change. No generic catch-all
/// kind exists.
#[derive(Clone, Copy, Debug, PartialEq, Eq, Structural)]
pub enum CustomError {
    /// A slippage tolerance outside `(0, 500]` basis points.
    InvalidSlippage,
    /// A position's lower tick bound is not strictly below its upper bound.
    InvalidTickRange,
    /// A requested liquidity amount of zero.
    ZeroLiquidity,
    /// Both deposit caps of an open-position request are zero.
    ZeroDeposit,
    /// A supplied vault reference does not match the pool's recorded vault.
    InvalidVault,
    /// A swap amount of zero.
    ZeroSwapAmount,
    /// A caller-declared counter-side expectation of zero.
    InvalidExpectedAmount,
    /// The supplied pool-configuration record is not the one the target
    /// pool points to.
    AmmConfigMismatch,
    /// The supplied oracle/observation record is not the one the target
    /// pool points to.
    ObservationMismatch,
    /// The supplied tick-array container does not belong to the target
    /// pool.
    TickArrayMismatch,
    /// A deposit token account or supplied mint record is not denominated
    /// in the same asset as the corresponding vault.
    TokenMintMismatch,
    /// A supplied position account does not match the address the engine's
    /// deterministic derivation scheme assigns to it.
    DerivedAddressMismatch,
}

} // verus!
