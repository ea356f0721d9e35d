//! A protection layer between an end user and an automated market-making
//! execution engine.
//!
//! The library accepts a user's intent to swap tokens or open a liquidity
//! position, enforces a user-configurable slippage tolerance, validates
//! that every account reference involved is consistent with the pool it
//! claims to belong to, and shapes the single bounded request that is then
//! forwarded to the execution engine. The engine itself, the asset-custody
//! primitive, and the storage substrate are external collaborators: the
//! surrounding program performs those calls and hands this library plain
//! values.

mod accounts;
mod config;
mod errors;
mod events;
mod position;
mod slippage;
mod swap;

pub use accounts::AccountId;
pub use accounts::PoolView;
pub use accounts::TokenAccountView;
pub use config::apply_set;
pub use config::effective_bps;
pub use config::lemma_set_slippage_overwrites;
pub use config::lemma_unset_slippage_uses_default;
pub use config::resolve_slippage_bps;
pub use config::set_slippage;
pub use config::SetSlippage;
pub use config::UserConfig;
pub use errors::CustomError;
pub use events::position_opened;
pub use events::swap_executed;
pub use events::LiquidityDecreased;
pub use events::LiquidityIncreased;
pub use events::PositionOpened;
pub use events::SlippageSet;
pub use events::SwapExecuted;
pub use position::open_position_outcome;
pub use position::position_mints_consistent;
pub use position::position_refs_derived;
pub use position::position_vaults_consistent;
pub use position::proxy_open_position;
pub use position::DerivedPositionKeys;
pub use position::ProxyOpenPosition;
pub use position::ValidatedOpenPosition;
pub use slippage::compute_slippage_threshold;
pub use slippage::lemma_threshold_fits;
pub use slippage::lemma_threshold_monotonic;
pub use slippage::lemma_threshold_protective;
pub use slippage::threshold_math;
pub use slippage::threshold_spec;
pub use slippage::valid_bps;
pub use slippage::DEFAULT_SLIPPAGE_BPS;
pub use swap::proxy_swap;
pub use swap::swap_outcome;
pub use swap::swap_refs_consistent;
pub use swap::ProxySwap;
pub use swap::ValidatedSwap;
