use vstd::prelude::*;
use crate::accounts::{AccountId, PoolView};
use crate::config::{effective_bps, resolve_slippage_bps, UserConfig};
use crate::errors::CustomError;
use crate::slippage::{compute_slippage_threshold, threshold_spec, valid_bps};

verus! {

/// The accounts a swap request brings, reduced to the values the relay
/// reads.
///
/// `pool_state` holds the authoritative fields read from the target pool
/// itself; the remaining identifiers describe the caller-supplied
/// references that must agree with them. They are untrusted until checked.
#[derive(Clone, Copy, Debug, PartialEq, Eq, Structural)]
pub struct ProxySwap {
    /// The signing payer, owner of the slippage record.
    pub payer: AccountId,
    /// The payer's slippage record, as read from storage.
    pub user_cfg: UserConfig,
    /// Fields read from the target pool's own record.
    pub pool_state: PoolView,
    /// Address of the supplied pool-configuration record.
    pub amm_config: AccountId,
    /// Address of the supplied oracle/observation record.
    pub observation_state: AccountId,
    /// Pool identity recorded inside the supplied tick-array container.
    pub tick_array_pool_id: AccountId,
}

/// The single bounded call a validated swap forwards to the execution
/// engine: the caller's amounts with the protective threshold in place of
/// the raw expectation, and the tolerance and direction for the completion
/// record.
#[derive(Clone, Copy, Debug, PartialEq, Eq, Structural)]
pub struct ValidatedSwap {
    pub amount: u64,
    pub expected_other_amount: u64,
    /// The protective bound: minimum acceptable output when the input side
    /// is fixed, maximum acceptable input otherwise.
    pub other_amount_threshold: u64,
    pub sqrt_price_limit_x64: u128,
    pub is_base_input: bool,
    /// The tolerance the relay resolved and applied.
    pub slippage_bps: u16,
}

/// All cross-entity consistency constraints of a swap: each caller-supplied
/// reference equals the address the pool's own record points to.
pub open spec fn swap_refs_consistent(ctx: ProxySwap) -> bool {
    &&& ctx.amm_config == ctx.pool_state.amm_config
    &&& ctx.observation_state == ctx.pool_state.observation_key
    &&& ctx.tick_array_pool_id == ctx.pool_state.key
}

/// The outcome of a swap request: the first violated check names the
/// failure, in the order the references are validated and the
/// preconditions are tested; when every check holds, the bounded engine
/// call.
pub open spec fn swap_outcome(
    ctx: ProxySwap,
    amount: u64,
    expected_other_amount: u64,
    sqrt_price_limit_x64: u128,
    is_base_input: bool,
) -> Result<ValidatedSwap, CustomError> {
    if ctx.amm_config != ctx.pool_state.amm_config {
        Err(CustomError::AmmConfigMismatch)
    } else if ctx.observation_state != ctx.pool_state.observation_key {
        Err(CustomError::ObservationMismatch)
    } else if ctx.tick_array_pool_id != ctx.pool_state.key {
        Err(CustomError::TickArrayMismatch)
    } else if amount == 0 {
        Err(CustomError::ZeroSwapAmount)
    } else if expected_other_amount == 0 {
        Err(CustomError::InvalidExpectedAmount)
    } else if !valid_bps(effective_bps(ctx.user_cfg)) {
        Err(CustomError::InvalidSlippage)
    } else {
        Ok(
            ValidatedSwap {
                amount,
                expected_other_amount,
                other_amount_threshold: threshold_spec(
                    expected_other_amount,
                    effective_bps(ctx.user_cfg),
                    is_base_input,
                ),
                sqrt_price_limit_x64,
                is_base_input,
                slippage_bps: effective_bps(ctx.user_cfg),
            },
        )
    }
}

/// Validates a swap request and shapes the bounded call to forward.
///
/// The request is relayed only when the amounts are positive, the resolved
/// tolerance is valid, and every supplied reference agrees with the pool's
/// own record; the first violated check is reported and nothing is
/// forwarded. The relay contributes exactly one number of its own: the
/// threshold, computed from the caller's expectation and the resolved
/// tolerance, which replaces the raw expectation as the engine-side bound.
/// No event exists for a rejected request; the completion record is built
/// only after the engine succeeds on the returned call.
pub fn proxy_swap(
    ctx: &ProxySwap,
    amount: u64,
    expected_other_amount: u64,
    sqrt_price_limit_x64: u128,
    is_base_input: bool,
) -> (r: Result<ValidatedSwap, CustomError>)
    ensures
        r == swap_outcome(*ctx, amount, expected_other_amount, sqrt_price_limit_x64, is_base_input),
        r is Ok <==> swap_refs_consistent(*ctx) && amount > 0 && expected_other_amount > 0
            && valid_bps(effective_bps(ctx.user_cfg)),
        ctx.tick_array_pool_id != ctx.pool_state.key ==> r is Err,
{
    if ctx.amm_config != ctx.pool_state.amm_config {
        return Err(CustomError::AmmConfigMismatch);
    }
    if ctx.observation_state != ctx.pool_state.observation_key {
        return Err(CustomError::ObservationMismatch);
    }
    if ctx.tick_array_pool_id != ctx.pool_state.key {
        return Err(CustomError::TickArrayMismatch);
    }
    if amount == 0 {
        return Err(CustomError::ZeroSwapAmount);
    }
    if expected_other_amount == 0 {
        return Err(CustomError::InvalidExpectedAmount);
    }
    let bps: u16 = resolve_slippage_bps(&ctx.user_cfg);
    if !(bps > 0 && bps <= 500) {
        return Err(CustomError::InvalidSlippage);
    }
    let threshold: u64 = compute_slippage_threshold(expected_other_amount, bps, is_base_input);
    Ok(
        ValidatedSwap {
            amount,
            expected_other_amount,
            other_amount_threshold: threshold,
            sqrt_price_limit_x64,
            is_base_input,
            slippage_bps: bps,
        },
    )
}

} // verus!
