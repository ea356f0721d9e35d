use raydium_integration::{
    resolve_slippage_bps, set_slippage, AccountId, CustomError, SetSlippage, UserConfig,
};

fn owner() -> AccountId {
    AccountId { hi: 0x11, lo: 0x22 }
}

fn ctx_with(bps: u16) -> SetSlippage {
    SetSlippage {
        owner: owner(),
        user_cfg: UserConfig {
            owner: owner(),
            slippage_bps: bps,
        },
    }
}

#[test]
fn set_slippage_valid_updates_record() {
    let mut ctx = ctx_with(0);
    let ev = set_slippage(&mut ctx, 250, 1_700_000_000).unwrap();
    assert_eq!(ctx.user_cfg.owner, owner());
    assert_eq!(ctx.user_cfg.slippage_bps, 250);
    assert_eq!(ev.owner, owner());
    assert_eq!(ev.slippage_bps, 250);
    assert_eq!(ev.timestamp, 1_700_000_000);
}

#[test]
fn set_slippage_boundary_accepted() {
    let mut ctx = ctx_with(0);
    assert!(set_slippage(&mut ctx, 500, 0).is_ok());
    assert_eq!(ctx.user_cfg.slippage_bps, 500);
    assert!(set_slippage(&mut ctx, 1, 0).is_ok());
    assert_eq!(ctx.user_cfg.slippage_bps, 1);
}

#[test]
fn set_slippage_zero_rejected_and_record_kept() {
    let mut ctx = ctx_with(250);
    let r = set_slippage(&mut ctx, 0, 7);
    assert_eq!(r, Err(CustomError::InvalidSlippage));
    assert_eq!(ctx.user_cfg.slippage_bps, 250);
    assert_eq!(ctx.user_cfg.owner, owner());
}

#[test]
fn set_slippage_above_max_rejected_and_record_kept() {
    let mut ctx = ctx_with(250);
    let r = set_slippage(&mut ctx, 501, 7);
    assert_eq!(r, Err(CustomError::InvalidSlippage));
    assert_eq!(ctx.user_cfg.slippage_bps, 250);
}

#[test]
fn set_slippage_twice_keeps_second_value() {
    let mut ctx = ctx_with(0);
    set_slippage(&mut ctx, 100, 1).unwrap();
    set_slippage(&mut ctx, 300, 2).unwrap();
    assert_eq!(ctx.user_cfg.slippage_bps, 300);
    assert_eq!(resolve_slippage_bps(&ctx.user_cfg), 300);
}

#[test]
fn resolve_unset_record_gives_default() {
    let cfg = UserConfig {
        owner: owner(),
        slippage_bps: 0,
    };
    assert_eq!(resolve_slippage_bps(&cfg), 500);
}

#[test]
fn resolve_set_record_gives_stored_value() {
    let cfg = UserConfig {
        owner: owner(),
        slippage_bps: 42,
    };
    assert_eq!(resolve_slippage_bps(&cfg), 42);
}
