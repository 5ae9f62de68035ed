use reza_vault::errors::VaultError;
use reza_vault::identity::Identity;
use reza_vault::ledger::VaultLedger;

fn ident(n: u64) -> Identity {
    Identity::new(n, 0, 0, 0)
}

fn fresh() -> VaultLedger {
    VaultLedger::initialize(ident(1), ident(2), ident(3), ident(4), false).unwrap()
}

#[test]
fn pause_by_stranger_rejected() {
    let mut l = fresh();
    let before = l;
    assert_eq!(l.pause(ident(66)), Err(VaultError::Unauthorized));
    assert_eq!(l, before);
}

#[test]
fn unpause_by_stranger_rejected() {
    let mut l = fresh();
    l.pause(ident(1)).unwrap();
    let before = l;
    assert_eq!(l.unpause(ident(66)), Err(VaultError::Unauthorized));
    assert_eq!(l, before);
    assert!(l.paused);
}

#[test]
fn set_admin_by_stranger_rejected() {
    let mut l = fresh();
    let before = l;
    assert_eq!(l.set_admin(ident(66), ident(66)), Err(VaultError::Unauthorized));
    assert_eq!(l, before);
    assert_eq!(l.admin, ident(1));
}

#[test]
fn pause_and_unpause_by_admin() {
    let mut l = fresh();
    assert_eq!(l.pause(ident(1)), Ok(()));
    assert!(l.paused);
    // pausing an already paused vault still succeeds
    assert_eq!(l.pause(ident(1)), Ok(()));
    assert!(l.paused);
    assert_eq!(l.unpause(ident(1)), Ok(()));
    assert!(!l.paused);
}

#[test]
fn pause_touches_nothing_but_the_flag() {
    let mut l = fresh();
    l.deposit_asset(ident(9), 500, 1).unwrap();
    let before = l;
    l.pause(ident(1)).unwrap();
    assert_eq!(l.total_assets, before.total_assets);
    assert_eq!(l.total_shares, before.total_shares);
    assert_eq!(l.admin, before.admin);
    l.unpause(ident(1)).unwrap();
    assert_eq!(l, before);
}

#[test]
fn admin_handoff_transfers_authority() {
    let mut l = fresh();
    let old_admin = ident(1);
    let new_admin = ident(5);
    assert_eq!(l.set_admin(old_admin, new_admin), Ok(()));
    assert_eq!(l.admin, new_admin);
    // the old admin has no authority left
    assert_eq!(l.pause(old_admin), Err(VaultError::Unauthorized));
    // the new admin has it all
    assert_eq!(l.pause(new_admin), Ok(()));
    assert!(l.paused);
}

#[test]
fn identities_compare_by_all_words() {
    let a = Identity::new(1, 2, 3, 4);
    let b = Identity::new(1, 2, 3, 4);
    let c = Identity::new(1, 2, 3, 5);
    assert_eq!(a, b);
    assert_ne!(a, c);
}
