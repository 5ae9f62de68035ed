use vstd::prelude::*;
use crate::identity::Identity;

verus! {

/// Audit record of a successful deposit: who paid in, how much, and how
/// many shares were minted in return. The timestamp is the host clock
/// reading the caller supplied for this operation.
#[derive(Clone, Copy, Debug, PartialEq, Eq, Structural)]
pub struct DepositEvent {
    pub user: Identity,
    pub asset_amount: u64,
    pub shares_minted: u64,
    pub timestamp: i64,
}

/// Audit record of a successful withdrawal: who redeemed, how many
/// shares were burned, and how many asset units were released.
#[derive(Clone, Copy, Debug, PartialEq, Eq, Structural)]
pub struct WithdrawEvent {
    pub user: Identity,
    pub shares_burned: u64,
    pub asset_amount: u64,
    pub timestamp: i64,
}

} // verus!
