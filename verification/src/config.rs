use vstd::prelude::*;
use crate::accounts::AccountId;
use crate::errors::CustomError;
use crate::events::SlippageSet;
use crate::slippage::{threshold_spec, valid_bps, DEFAULT_SLIPPAGE_BPS};

verus! {

/// One per-user slippage record, keyed by its owner's account identifier.
///
/// `slippage_bps == 0` is the unset sentinel: a record that was never
/// explicitly configured. Readers must substitute the default tolerance
/// for it. Whenever the record has been explicitly set through
/// [`set_slippage`], its tolerance lies in `(0, 500]`.
#[derive(Clone, Copy, Debug, PartialEq, Eq, Structural)]
pub struct UserConfig {
    pub owner: AccountId,
    pub slippage_bps: u16,
}

/// The context of the configuration setter: the signing owner's identity
/// and that owner's record, the only state the operation may write.
#[derive(Clone, Copy, Debug, PartialEq, Eq, Structural)]
pub struct SetSlippage {
    pub owner: AccountId,
    pub user_cfg: UserConfig,
}

/// The record a successful set leaves behind: owner and tolerance are both
/// written; nothing of the previous record survives.
pub open spec fn apply_set(previous: UserConfig, owner: AccountId, bps: u16) -> UserConfig {
    UserConfig { owner, slippage_bps: bps }
}

/// The tolerance a record denotes: the stored value, or the default where
/// the record is unset (sentinel zero).
pub open spec fn effective_bps(cfg: UserConfig) -> u16 {
    if cfg.slippage_bps == 0 {
        DEFAULT_SLIPPAGE_BPS
    } else {
        cfg.slippage_bps
    }
}

/// Reads the tolerance a record denotes, substituting the default where
/// the record is unset.
pub fn resolve_slippage_bps(cfg: &UserConfig) -> (bps: u16)
    ensures
        bps == effective_bps(*cfg),
{
    if cfg.slippage_bps == 0 {
        DEFAULT_SLIPPAGE_BPS
    } else {
        cfg.slippage_bps
    }
}

/// Creates or updates the caller's slippage record.
///
/// A tolerance outside `(0, 500]` — in particular the sentinel zero — is
/// rejected with `InvalidSlippage` and leaves the record untouched. On
/// success the record holds exactly the owner and the new tolerance, and
/// the returned event describes the completed change; on failure no event
/// exists.
pub fn set_slippage(ctx: &mut SetSlippage, bps: u16, now: i64) -> (r: Result<
    SlippageSet,
    CustomError,
>)
    ensures
        r is Ok <==> valid_bps(bps),
        final(ctx).owner == old(ctx).owner,
        valid_bps(bps) ==> final(ctx).user_cfg == apply_set(
            old(ctx).user_cfg,
            old(ctx).owner,
            bps,
        ),
        !valid_bps(bps) ==> r == Err::<SlippageSet, CustomError>(CustomError::InvalidSlippage)
            && *final(ctx) == *old(ctx),
        r matches Ok(ev) ==> ev == (SlippageSet {
            owner: old(ctx).owner,
            slippage_bps: bps,
            timestamp: now,
        }),
{
    if bps == 0 {
        return Err(CustomError::InvalidSlippage);
    }
    if bps > 500 {
        return Err(CustomError::InvalidSlippage);
    }
    ctx.user_cfg.owner = ctx.owner;
    ctx.user_cfg.slippage_bps = bps;
    Ok(SlippageSet { owner: ctx.owner, slippage_bps: bps, timestamp: now })
}

/// Law: a second successful set overwrites the first entirely. The record
/// left by setting `first` and then `second` is the record left by setting
/// `second` alone, and the tolerance read thereafter is `second` — values
/// do not accumulate.
pub proof fn lemma_set_slippage_overwrites(
    cfg: UserConfig,
    owner: AccountId,
    first: u16,
    second: u16,
)
    requires
        valid_bps(first),
        valid_bps(second),
    ensures
        apply_set(apply_set(cfg, owner, first), owner, second) == apply_set(cfg, owner, second),
        effective_bps(apply_set(apply_set(cfg, owner, first), owner, second)) == second,
{
}

/// Law: an unset record resolves to the default tolerance, and a swap
/// computed for it bounds exactly as one computed for a record explicitly
/// set to the default.
pub proof fn lemma_unset_slippage_uses_default(cfg: UserConfig, expected: u64, is_base_input: bool)
    requires
        cfg.slippage_bps == 0,
    ensures
        effective_bps(cfg) == DEFAULT_SLIPPAGE_BPS,
        threshold_spec(expected, effective_bps(cfg), is_base_input) == threshold_spec(
            expected,
            DEFAULT_SLIPPAGE_BPS,
            is_base_input,
        ),
{
}

} // verus!
