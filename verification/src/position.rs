use vstd::prelude::*;
use crate::accounts::{AccountId, PoolView, TokenAccountView};
use crate::errors::CustomError;

verus! {

/// The addresses the execution engine's deterministic derivation scheme
/// assigns to the four position accounts, computed from the pool, the tick
/// bounds, and the position receipt. The scheme itself belongs to the
/// engine; the relay only demands that every supplied reference equal its
/// derived address.
#[derive(Clone, Copy, Debug, PartialEq, Eq, Structural)]
pub struct DerivedPositionKeys {
    pub protocol_position: AccountId,
    pub tick_array_lower: AccountId,
    pub tick_array_upper: AccountId,
    pub personal_position: AccountId,
}

/// The accounts an open-position request brings, reduced to the values the
/// relay reads.
///
/// `pool_state` holds the authoritative fields read from the target pool
/// itself and `derived` the addresses the engine's derivation scheme
/// assigns; everything else is caller-supplied and untrusted until checked
/// against them.
#[derive(Clone, Copy, Debug, PartialEq, Eq, Structural)]
pub struct ProxyOpenPosition {
    /// The signing payer.
    pub payer: AccountId,
    /// The mint of the to-be-created position receipt.
    pub position_nft_mint: AccountId,
    /// Fields read from the target pool's own record.
    pub pool_state: PoolView,
    /// Supplied protocol-position account.
    pub protocol_position: AccountId,
    /// Supplied container for the lower tick.
    pub tick_array_lower: AccountId,
    /// Supplied container for the upper tick.
    pub tick_array_upper: AccountId,
    /// Supplied personal-position account.
    pub personal_position: AccountId,
    /// The addresses the four accounts above must equal.
    pub derived: DerivedPositionKeys,
    /// Deposit account for the first token leg.
    pub token_account_0: TokenAccountView,
    /// Deposit account for the second token leg.
    pub token_account_1: TokenAccountView,
    /// Supplied vault for the first token leg.
    pub token_vault_0: TokenAccountView,
    /// Supplied vault for the second token leg.
    pub token_vault_1: TokenAccountView,
    /// Supplied mint record for the first vault's asset.
    pub vault_0_mint: AccountId,
    /// Supplied mint record for the second vault's asset.
    pub vault_1_mint: AccountId,
}

/// The single call a validated open-position request forwards to the
/// execution engine: bounds, caps and options passed through unmodified.
#[derive(Clone, Copy, Debug, PartialEq, Eq, Structural)]
pub struct ValidatedOpenPosition {
    pub tick_lower_index: i32,
    pub tick_upper_index: i32,
    pub tick_array_lower_start_index: i32,
    pub tick_array_upper_start_index: i32,
    pub liquidity: u128,
    pub amount_0_max: u64,
    pub amount_1_max: u64,
    pub with_metadata: bool,
    pub base_flag: Option<bool>,
}

/// The four position accounts each equal the address the engine's
/// derivation scheme assigns to them.
pub open spec fn position_refs_derived(ctx: ProxyOpenPosition) -> bool {
    &&& ctx.protocol_position == ctx.derived.protocol_position
    &&& ctx.tick_array_lower == ctx.derived.tick_array_lower
    &&& ctx.tick_array_upper == ctx.derived.tick_array_upper
    &&& ctx.personal_position == ctx.derived.personal_position
}

/// Each deposit account and each supplied mint record is denominated in
/// the same asset as the corresponding vault.
pub open spec fn position_mints_consistent(ctx: ProxyOpenPosition) -> bool {
    &&& ctx.token_account_0.mint == ctx.token_vault_0.mint
    &&& ctx.token_account_1.mint == ctx.token_vault_1.mint
    &&& ctx.vault_0_mint == ctx.token_vault_0.mint
    &&& ctx.vault_1_mint == ctx.token_vault_1.mint
}

/// The supplied vaults are the vaults the pool's own record names.
pub open spec fn position_vaults_consistent(ctx: ProxyOpenPosition) -> bool {
    &&& ctx.token_vault_0.key == ctx.pool_state.token_vault_0
    &&& ctx.token_vault_1.key == ctx.pool_state.token_vault_1
}

/// The outcome of an open-position request: the first violated check names
/// the failure, in the order the references are validated and the
/// preconditions are tested; when every check holds, the engine call with
/// every bound and option passed through unmodified.
pub open spec fn open_position_outcome(
    ctx: ProxyOpenPosition,
    tick_lower_index: i32,
    tick_upper_index: i32,
    tick_array_lower_start_index: i32,
    tick_array_upper_start_index: i32,
    liquidity: u128,
    amount_0_max: u64,
    amount_1_max: u64,
    with_metadata: bool,
    base_flag: Option<bool>,
) -> Result<ValidatedOpenPosition, CustomError> {
    if ctx.protocol_position != ctx.derived.protocol_position {
        Err(CustomError::DerivedAddressMismatch)
    } else if ctx.tick_array_lower != ctx.derived.tick_array_lower {
        Err(CustomError::DerivedAddressMismatch)
    } else if ctx.tick_array_upper != ctx.derived.tick_array_upper {
        Err(CustomError::DerivedAddressMismatch)
    } else if ctx.personal_position != ctx.derived.personal_position {
        Err(CustomError::DerivedAddressMismatch)
    } else if ctx.token_account_0.mint != ctx.token_vault_0.mint {
        Err(CustomError::TokenMintMismatch)
    } else if ctx.token_account_1.mint != ctx.token_vault_1.mint {
        Err(CustomError::TokenMintMismatch)
    } else if ctx.token_vault_0.key != ctx.pool_state.token_vault_0 {
        Err(CustomError::InvalidVault)
    } else if ctx.token_vault_1.key != ctx.pool_state.token_vault_1 {
        Err(CustomError::InvalidVault)
    } else if ctx.vault_0_mint != ctx.token_vault_0.mint {
        Err(CustomError::TokenMintMismatch)
    } else if ctx.vault_1_mint != ctx.token_vault_1.mint {
        Err(CustomError::TokenMintMismatch)
    } else if tick_lower_index >= tick_upper_index {
        Err(CustomError::InvalidTickRange)
    } else if liquidity == 0 {
        Err(CustomError::ZeroLiquidity)
    } else if amount_0_max == 0 && amount_1_max == 0 {
        Err(CustomError::ZeroDeposit)
    } else {
        Ok(
            ValidatedOpenPosition {
                tick_lower_index,
                tick_upper_index,
                tick_array_lower_start_index,
                tick_array_upper_start_index,
                liquidity,
                amount_0_max,
                amount_1_max,
                with_metadata,
                base_flag,
            },
        )
    }
}

/// Validates an open-position request and shapes the call to forward.
///
/// The request is relayed only when the tick bounds are strictly ordered,
/// the liquidity is positive, at least one deposit cap is positive, and
/// every supplied reference agrees with the pool's own record or with its
/// derived address; the first violated check is reported and nothing is
/// forwarded. The bounds, caps, and the metadata and base-token options
/// pass through unmodified. No event exists for a rejected request; the
/// completion record is built only after the engine succeeds on the
/// returned call.
pub fn proxy_open_position(
    ctx: &ProxyOpenPosition,
    tick_lower_index: i32,
    tick_upper_index: i32,
    tick_array_lower_start_index: i32,
    tick_array_upper_start_index: i32,
    liquidity: u128,
    amount_0_max: u64,
    amount_1_max: u64,
    with_metadata: bool,
    base_flag: Option<bool>,
) -> (r: Result<ValidatedOpenPosition, CustomError>)
    ensures
        r == open_position_outcome(
            *ctx,
            tick_lower_index,
            tick_upper_index,
            tick_array_lower_start_index,
            tick_array_upper_start_index,
            liquidity,
            amount_0_max,
            amount_1_max,
            with_metadata,
            base_flag,
        ),
        r is Ok <==> position_refs_derived(*ctx) && position_mints_consistent(*ctx)
            && position_vaults_consistent(*ctx) && tick_lower_index < tick_upper_index && liquidity
            > 0 && (amount_0_max > 0 || amount_1_max > 0),
        tick_lower_index >= tick_upper_index ==> r is Err,
        position_refs_derived(*ctx) && position_mints_consistent(*ctx)
            && position_vaults_consistent(*ctx) && tick_lower_index >= tick_upper_index ==> r
            == Err::<ValidatedOpenPosition, CustomError>(CustomError::InvalidTickRange),
{
    if ctx.protocol_position != ctx.derived.protocol_position {
        return Err(CustomError::DerivedAddressMismatch);
    }
    if ctx.tick_array_lower != ctx.derived.tick_array_lower {
        return Err(CustomError::DerivedAddressMismatch);
    }
    if ctx.tick_array_upper != ctx.derived.tick_array_upper {
        return Err(CustomError::DerivedAddressMismatch);
    }
    if ctx.personal_position != ctx.derived.personal_position {
        return Err(CustomError::DerivedAddressMismatch);
    }
    if ctx.token_account_0.mint != ctx.token_vault_0.mint {
        return Err(CustomError::TokenMintMismatch);
    }
    if ctx.token_account_1.mint != ctx.token_vault_1.mint {
        return Err(CustomError::TokenMintMismatch);
    }
    if ctx.token_vault_0.key != ctx.pool_state.token_vault_0 {
        return Err(CustomError::InvalidVault);
    }
    if ctx.token_vault_1.key != ctx.pool_state.token_vault_1 {
        return Err(CustomError::InvalidVault);
    }
    if ctx.vault_0_mint != ctx.token_vault_0.mint {
        return Err(CustomError::TokenMintMismatch);
    }
    if ctx.vault_1_mint != ctx.token_vault_1.mint {
        return Err(CustomError::TokenMintMismatch);
    }
    if tick_lower_index >= tick_upper_index {
        return Err(CustomError::InvalidTickRange);
    }
    if liquidity == 0 {
        return Err(CustomError::ZeroLiquidity);
    }
    if amount_0_max == 0 && amount_1_max == 0 {
        return Err(CustomError::ZeroDeposit);
    }
    Ok(
        ValidatedOpenPosition {
            tick_lower_index,
            tick_upper_index,
            tick_array_lower_start_index,
            tick_array_upper_start_index,
            liquidity,
            amount_0_max,
            amount_1_max,
            with_metadata,
            base_flag,
        },
    )
}

} // verus!
