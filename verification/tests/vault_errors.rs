use reza_vault::errors::VaultError;
use reza_vault::identity::Identity;
use reza_vault::ledger::VaultLedger;

fn ident(n: u64) -> Identity {
    Identity::new(n, 0, 0, 0)
}

fn funded(total_assets: u64, total_shares: u64) -> VaultLedger {
    VaultLedger {
        admin: ident(1),
        paused: false,
        asset_id: ident(2),
        share_id: ident(3),
        custodial_asset_account: ident(4),
        total_assets,
        total_shares,
    }
}

#[test]
fn deposit_zero_rejected() {
    let mut l = funded(1000, 1000);
    let before = l;
    assert_eq!(l.deposit_asset(ident(9), 0, 1), Err(VaultError::InvalidAmount));
    assert_eq!(l, before);
}

#[test]
fn withdraw_zero_rejected() {
    let mut l = funded(1000, 1000);
    let before = l;
    assert_eq!(l.withdraw_asset(ident(9), 0, 1000, 1), Err(VaultError::InvalidAmount));
    assert_eq!(l, before);
}

#[test]
fn paused_vault_rejects_everyone() {
    let mut l = funded(1000, 1000);
    l.pause(ident(1)).unwrap();
    let before = l;
    // the pause gate does not care who the caller is, admin included
    assert_eq!(l.deposit_asset(ident(9), 10, 1), Err(VaultError::VaultPaused));
    assert_eq!(l.deposit_asset(ident(1), 10, 1), Err(VaultError::VaultPaused));
    assert_eq!(l.withdraw_asset(ident(9), 10, 100, 1), Err(VaultError::VaultPaused));
    assert_eq!(l.withdraw_asset(ident(1), 10, 100, 1), Err(VaultError::VaultPaused));
    assert_eq!(l, before);
}

#[test]
fn dust_deposit_rejected_for_rounding() {
    // floor(1000 * 1 / u64::MAX) == 0
    let mut l = funded(u64::MAX, 1);
    let before = l;
    assert_eq!(l.deposit_asset(ident(9), 1000, 1), Err(VaultError::RoundingToZero));
    assert_eq!(l, before);
}

#[test]
fn dust_withdraw_rejected_for_rounding() {
    // floor(5 * 1 / 1000) == 0
    let mut l = funded(1, 1000);
    let before = l;
    assert_eq!(l.withdraw_asset(ident(9), 5, 1000, 1), Err(VaultError::RoundingToZero));
    assert_eq!(l, before);
}

#[test]
fn deposit_overflowing_share_quantity_rejected() {
    // floor(3 * u64::MAX / 1) does not fit in 64 bits
    let mut l = funded(1, u64::MAX);
    let before = l;
    assert_eq!(l.deposit_asset(ident(9), 3, 1), Err(VaultError::Overflow));
    assert_eq!(l, before);
}

#[test]
fn deposit_overflowing_totals_rejected() {
    // the minted quantity fits, but total_assets + amount does not
    let mut l = funded(u64::MAX, u64::MAX);
    let before = l;
    assert_eq!(l.deposit_asset(ident(9), 1, 1), Err(VaultError::Overflow));
    assert_eq!(l, before);
}

#[test]
fn withdraw_beyond_balance_rejected() {
    let mut l = funded(1000, 1000);
    let before = l;
    assert_eq!(l.withdraw_asset(ident(9), 10, 5, 1), Err(VaultError::InsufficientShares));
    assert_eq!(l, before);
}

#[test]
fn withdraw_from_empty_vault_rejected() {
    let mut l = funded(0, 0);
    let before = l;
    assert_eq!(l.withdraw_asset(ident(9), 10, 100, 1), Err(VaultError::EmptyVault));
    assert_eq!(l, before);
}

#[test]
fn withdraw_beyond_outstanding_shares_underflows() {
    // floor(7 * 10 / 5) == 14 exceeds the 10 pooled assets
    let mut l = funded(10, 5);
    let before = l;
    assert_eq!(l.withdraw_asset(ident(9), 7, 100, 1), Err(VaultError::Underflow));
    assert_eq!(l, before);
}

#[test]
fn apply_moves_both_totals() {
    let mut l = funded(0, 0);
    assert_eq!(l.apply(5, 5), Ok(()));
    assert_eq!(l.total_assets, 5);
    assert_eq!(l.total_shares, 5);
    assert_eq!(l.apply(-5, -5), Ok(()));
    assert_eq!(l.total_assets, 0);
    assert_eq!(l.total_shares, 0);
}

#[test]
fn apply_underflow_rejected() {
    let mut l = funded(3, 3);
    let before = l;
    assert_eq!(l.apply(-4, -1), Err(VaultError::Underflow));
    assert_eq!(l, before);
}

#[test]
fn apply_overflow_rejected() {
    let mut l = funded(u64::MAX, u64::MAX);
    let before = l;
    assert_eq!(l.apply(1, 0), Err(VaultError::Overflow));
    assert_eq!(l.apply(i128::MAX, i128::MAX), Err(VaultError::Overflow));
    assert_eq!(l, before);
}

#[test]
fn apply_guards_zero_symmetry() {
    let mut l = funded(0, 0);
    let before = l;
    assert_eq!(l.apply(5, 0), Err(VaultError::InvariantViolation));
    assert_eq!(l.apply(0, 5), Err(VaultError::InvariantViolation));
    assert_eq!(l, before);
    let mut f = funded(8, 4);
    let before = f;
    assert_eq!(f.apply(-8, 0), Err(VaultError::InvariantViolation));
    assert_eq!(f.apply(0, -4), Err(VaultError::InvariantViolation));
    assert_eq!(f, before);
}
