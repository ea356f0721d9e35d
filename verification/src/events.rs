use vstd::prelude::*;
use crate::accounts::AccountId;
use crate::position::{ProxyOpenPosition, ValidatedOpenPosition};
use crate::swap::{ProxySwap, ValidatedSwap};

verus! {

/// Notification of a completed configuration change: the owner now holds
/// the given tolerance.
#[derive(Clone, Copy, Debug, PartialEq, Eq, Structural)]
pub struct SlippageSet {
    pub owner: AccountId,
    pub slippage_bps: u16,
    pub timestamp: i64,
}

/// Notification of a completed swap.
///
/// `amount_out` repeats the caller's declared expectation, not a value the
/// execution engine confirmed: the record is observational, not a
/// financial reconciliation.
#[derive(Clone, Copy, Debug, PartialEq, Eq, Structural)]
pub struct SwapExecuted {
    pub user: AccountId,
    pub pool: AccountId,
    pub amount_in: u64,
    pub amount_out: u64,
    pub expected_amount: u64,
    pub slippage_bps: u16,
    pub is_base_input: bool,
    pub timestamp: i64,
}

/// Notification of a completed position opening.
#[derive(Clone, Copy, Debug, PartialEq, Eq, Structural)]
pub struct PositionOpened {
    pub user: AccountId,
    pub pool: AccountId,
    pub position_nft: AccountId,
    pub tick_lower: i32,
    pub tick_upper: i32,
    pub liquidity: u128,
    pub amount_0: u64,
    pub amount_1: u64,
    pub timestamp: i64,
}

/// Notification of liquidity added to an existing position.
#[derive(Clone, Copy, Debug, PartialEq, Eq, Structural)]
pub struct LiquidityIncreased {
    pub user: AccountId,
    pub position_nft: AccountId,
    pub liquidity_added: u128,
    pub amount_0_added: u64,
    pub amount_1_added: u64,
    pub timestamp: i64,
}

/// Notification of liquidity removed from an existing position.
#[derive(Clone, Copy, Debug, PartialEq, Eq, Structural)]
pub struct LiquidityDecreased {
    pub user: AccountId,
    pub position_nft: AccountId,
    pub liquidity_removed: u128,
    pub amount_0_removed: u64,
    pub amount_1_removed: u64,
    pub timestamp: i64,
}

/// Builds the record of a swap the engine completed: the payer, the target
/// pool, the caller-reported amounts, and the tolerance and direction the
/// relay actually applied.
pub fn swap_executed(ctx: &ProxySwap, call: &ValidatedSwap, now: i64) -> (ev: SwapExecuted)
    ensures
        ev == (SwapExecuted {
            user: ctx.payer,
            pool: ctx.pool_state.key,
            amount_in: call.amount,
            amount_out: call.expected_other_amount,
            expected_amount: call.expected_other_amount,
            slippage_bps: call.slippage_bps,
            is_base_input: call.is_base_input,
            timestamp: now,
        }),
{
    SwapExecuted {
        user: ctx.payer,
        pool: ctx.pool_state.key,
        amount_in: call.amount,
        amount_out: call.expected_other_amount,
        expected_amount: call.expected_other_amount,
        slippage_bps: call.slippage_bps,
        is_base_input: call.is_base_input,
        timestamp: now,
    }
}

/// Builds the record of a position opening the engine completed: the
/// payer, the target pool, the position receipt, and the bounds and caps
/// that were forwarded.
pub fn position_opened(ctx: &ProxyOpenPosition, call: &ValidatedOpenPosition, now: i64) -> (ev:
    PositionOpened)
    ensures
        ev == (PositionOpened {
            user: ctx.payer,
            pool: ctx.pool_state.key,
            position_nft: ctx.position_nft_mint,
            tick_lower: call.tick_lower_index,
            tick_upper: call.tick_upper_index,
            liquidity: call.liquidity,
            amount_0: call.amount_0_max,
            amount_1: call.amount_1_max,
            timestamp: now,
        }),
{
    PositionOpened {
        user: ctx.payer,
        pool: ctx.pool_state.key,
        position_nft: ctx.position_nft_mint,
        tick_lower: call.tick_lower_index,
        tick_upper: call.tick_upper_index,
        liquidity: call.liquidity,
        amount_0: call.amount_0_max,
        amount_1: call.amount_1_max,
        timestamp: now,
    }
}

} // verus!
