use vstd::prelude::*;
use vstd::arithmetic::div_mod::{lemma_div_multiples_vanish, lemma_multiply_divide_lt};
use vstd::arithmetic::mul::{lemma_mul_strict_inequality, lemma_mul_upper_bound};
use crate::errors::VaultError;
use crate::events::{DepositEvent, WithdrawEvent};
use crate::identity::Identity;
use crate::ledger::VaultLedger;

verus! {

/// Shares minted for depositing `amount` asset units into a pool of
/// `total_assets` backing `total_shares`: the bootstrap deposit is
/// priced one share per asset unit, and every later deposit at the
/// current rate, rounded down so the remainder stays with the pool.
pub open spec fn shares_for_deposit(total_assets: int, total_shares: int, amount: int) -> int {
    if total_shares == 0 {
        amount
    } else {
        (amount * total_shares) / total_assets
    }
}

/// Asset units released for burning `shares` against a pool of
/// `total_assets` backing `total_shares`, rounded down so the
/// remainder stays with the pool.
pub open spec fn assets_for_withdraw(total_assets: int, total_shares: int, shares: int) -> int {
    (shares * total_assets) / total_shares
}

/// The exact outcome of a deposit against the snapshot `pre`: either
/// the updated ledger paired with the minted share quantity, or the
/// error the operation fails with, in the order the checks run.
pub open spec fn spec_deposit(pre: VaultLedger, amount: u64) -> Result<
    (VaultLedger, u64),
    VaultError,
> {
    if amount == 0 {
        Err(VaultError::InvalidAmount)
    } else if pre.paused {
        Err(VaultError::VaultPaused)
    } else {
        let s = shares_for_deposit(pre.total_assets as int, pre.total_shares as int, amount as int);
        if s == 0 {
            Err(VaultError::RoundingToZero)
        } else if s > u64::MAX || pre.total_assets + amount > u64::MAX || pre.total_shares + s
            > u64::MAX {
            Err(VaultError::Overflow)
        } else {
            Ok(
                (
                    VaultLedger {
                        total_assets: (pre.total_assets + amount) as u64,
                        total_shares: (pre.total_shares + s) as u64,
                        ..pre
                    },
                    s as u64,
                ),
            )
        }
    }
}

/// The exact outcome of a withdrawal against the snapshot `pre`, where
/// `caller_share_balance` is the redeemer's share balance as the host
/// collaborator reports it: either the updated ledger paired with the
/// released asset quantity, or the error, in the order the checks run.
pub open spec fn spec_withdraw(pre: VaultLedger, shares: u64, caller_share_balance: u64) -> Result<
    (VaultLedger, u64),
    VaultError,
> {
    if shares == 0 {
        Err(VaultError::InvalidAmount)
    } else if pre.paused {
        Err(VaultError::VaultPaused)
    } else if caller_share_balance < shares {
        Err(VaultError::InsufficientShares)
    } else if pre.total_shares == 0 {
        Err(VaultError::EmptyVault)
    } else {
        let a = assets_for_withdraw(pre.total_assets as int, pre.total_shares as int, shares as int);
        if a == 0 {
            Err(VaultError::RoundingToZero)
        } else if a > pre.total_assets || shares > pre.total_shares {
            Err(VaultError::Underflow)
        } else {
            Ok(
                (
                    VaultLedger {
                        total_assets: (pre.total_assets - a) as u64,
                        total_shares: (pre.total_shares - shares) as u64,
                        ..pre
                    },
                    a as u64,
                ),
            )
        }
    }
}

/// The product of two 64-bit quantities always fits the 128-bit
/// intermediate the engine computes in: the widened multiplication can
/// never overflow, so no deposit or withdrawal is lost to it.
pub proof fn lemma_widened_product_fits(x: u64, y: u64)
    ensures
        (x as int) * (y as int) <= u128::MAX,
{
    lemma_mul_upper_bound(x as int, u64::MAX as int, y as int, u64::MAX as int);
}

/// How the floor-rounded withdrawal amount sits against the pool: a
/// redemption of every outstanding share drains the pool exactly, and
/// a partial redemption always leaves assets behind. This is why the
/// zero-symmetry invariant survives every withdrawal.
pub proof fn lemma_withdraw_amount_bounds(ta: int, ts: int, s: int)
    requires
        0 < ta,
        0 < ts,
        0 < s,
        s <= ts,
    ensures
        assets_for_withdraw(ta, ts, s) <= ta,
        s == ts ==> assets_for_withdraw(ta, ts, s) == ta,
        s < ts ==> assets_for_withdraw(ta, ts, s) < ta,
{
    if s == ts {
        lemma_div_multiples_vanish(ta, ts);
        assert(s * ta == ts * ta);
    } else {
        lemma_mul_strict_inequality(s, ts, ta);
        lemma_multiply_divide_lt(s * ta, ts, ta);
    }
}

impl VaultLedger {
    /// Deposit `amount` asset units and mint the proportional share
    /// quantity, recording both in the running totals.
    ///
    /// The caller is responsible for the two host effects around this:
    /// moving `amount` from the depositor to the custodial account and
    /// minting `shares_minted` to the depositor, under the host's
    /// all-or-nothing transaction so a failed effect also discards the
    /// ledger update. `now` is the host clock reading stamped on the
    /// audit record. Every error leaves the ledger unchanged.
    pub fn deposit_asset(&mut self, caller: Identity, amount: u64, now: i64) -> (r: Result<
        DepositEvent,
        VaultError,
    >)
        requires
            old(self).wf(),
        ensures
            final(self).wf(),
            match spec_deposit(*old(self), amount) {
                Ok(p) => r == Ok::<DepositEvent, VaultError>(
                    DepositEvent {
                        user: caller,
                        asset_amount: amount,
                        shares_minted: p.1,
                        timestamp: now,
                    },
                ) && *final(self) == p.0,
                Err(e) => r == Err::<DepositEvent, VaultError>(e) && *final(self) == *old(self),
            },
    {
        if amount == 0 {
            return Err(VaultError::InvalidAmount);
        }
        if self.paused {
            return Err(VaultError::VaultPaused);
        }
        let shares_wide: u128 = if self.total_shares == 0 {
            amount as u128
        } else {
            proof {
                lemma_widened_product_fits(amount, self.total_shares);
            }
            // wf puts assets in the pool whenever shares are outstanding,
            // so the divisor is nonzero here
            ((amount as u128) * (self.total_shares as u128)) / (self.total_assets as u128)
        };
        if shares_wide == 0 {
            return Err(VaultError::RoundingToZero);
        }
        if shares_wide > u64::MAX as u128 {
            return Err(VaultError::Overflow);
        }
        let shares: u64 = shares_wide as u64;
        match self.apply(amount as i128, shares as i128) {
            Ok(()) => {},
            Err(e) => {
                return Err(e);
            },
        }
        Ok(DepositEvent { user: caller, asset_amount: amount, shares_minted: shares, timestamp: now })
    }

    /// Burn `shares` claim tokens and release the proportional asset
    /// quantity, recording both in the running totals.
    ///
    /// `caller_share_balance` is the redeemer's share balance as read
    /// from the host collaborator; the authoritative check is the
    /// collaborator's own at burn time, this one fails fast. The caller
    /// performs the burn and the asset transfer around this call under
    /// the host's all-or-nothing transaction. `now` is the host clock
    /// reading stamped on the audit record. Every error leaves the
    /// ledger unchanged.
    pub fn withdraw_asset(
        &mut self,
        caller: Identity,
        shares: u64,
        caller_share_balance: u64,
        now: i64,
    ) -> (r: Result<WithdrawEvent, VaultError>)
        requires
            old(self).wf(),
        ensures
            final(self).wf(),
            match spec_withdraw(*old(self), shares, caller_share_balance) {
                Ok(p) => r == Ok::<WithdrawEvent, VaultError>(
                    WithdrawEvent {
                        user: caller,
                        shares_burned: shares,
                        asset_amount: p.1,
                        timestamp: now,
                    },
                ) && *final(self) == p.0,
                Err(e) => r == Err::<WithdrawEvent, VaultError>(e) && *final(self) == *old(self),
            },
    {
        if shares == 0 {
            return Err(VaultError::InvalidAmount);
        }
        if self.paused {
            return Err(VaultError::VaultPaused);
        }
        if caller_share_balance < shares {
            return Err(VaultError::InsufficientShares);
        }
        if self.total_shares == 0 {
            return Err(VaultError::EmptyVault);
        }
        proof {
            lemma_widened_product_fits(shares, self.total_assets);
        }
        let amount_wide: u128 = ((shares as u128) * (self.total_assets as u128)) / (
        self.total_shares as u128);
        if amount_wide == 0 {
            return Err(VaultError::RoundingToZero);
        }
        if amount_wide > self.total_assets as u128 || shares > self.total_shares {
            return Err(VaultError::Underflow);
        }
        let amount: u64 = amount_wide as u64;
        proof {
            // a full redemption drains both totals to zero and a partial
            // one leaves both positive, so the symmetry check in `apply`
            // cannot fire
            lemma_withdraw_amount_bounds(
                self.total_assets as int,
                self.total_shares as int,
                shares as int,
            );
        }
        match self.apply(-(amount as i128), -(shares as i128)) {
            Ok(()) => {},
            Err(e) => {
                return Err(e);
            },
        }
        Ok(
            WithdrawEvent {
                user: caller,
                shares_burned: shares,
                asset_amount: amount,
                timestamp: now,
            },
        )
    }
}

} // verus!
