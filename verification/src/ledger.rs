use vstd::prelude::*;
use crate::errors::VaultError;
use crate::identity::Identity;

verus! {

/// The durable record of one vault: its configuration and its running
/// totals. One instance exists per deployed vault; the host serializes
/// all operations touching it, so each operation sees a consistent
/// snapshot for its whole duration.
///
/// `total_assets` is the pool size as tracked by this ledger, not a
/// re-reading of the custodial account's live balance: deriving the
/// exchange rate from the live balance would let a direct donation to
/// the custodial account distort the rate for later depositors.
#[derive(Clone, Copy, Debug, PartialEq, Eq, Structural)]
pub struct VaultLedger {
    /// Identity authorized to pause, unpause and reassign the admin.
    pub admin: Identity,
    /// While set, deposits and withdrawals are rejected.
    pub paused: bool,
    /// Mint of the pooled asset. Immutable after initialization.
    pub asset_id: Identity,
    /// Mint of the claim token. Immutable after initialization.
    pub share_id: Identity,
    /// Account holding all deposited asset units under program
    /// authority. Immutable after initialization.
    pub custodial_asset_account: Identity,
    /// Asset units currently owned by the vault, as tracked here.
    pub total_assets: u64,
    /// Share units currently outstanding.
    pub total_shares: u64,
}

impl VaultLedger {
    /// Bootstrap/drain symmetry: the pool is either fully empty or has
    /// both sides positive. Holds after every successful operation.
    pub open spec fn wf(self) -> bool {
        (self.total_shares == 0) <==> (self.total_assets == 0)
    }

    /// The exact outcome of shifting both totals by signed deltas:
    /// underflow and overflow of the 64-bit totals are rejected, and so
    /// is any update that would break the zero-symmetry invariant.
    pub open spec fn spec_apply(pre: VaultLedger, delta_assets: int, delta_shares: int) -> Result<
        VaultLedger,
        VaultError,
    > {
        let na = pre.total_assets + delta_assets;
        let ns = pre.total_shares + delta_shares;
        if na < 0 || ns < 0 {
            Err(VaultError::Underflow)
        } else if na > u64::MAX || ns > u64::MAX {
            Err(VaultError::Overflow)
        } else if (na == 0) != (ns == 0) {
            Err(VaultError::InvariantViolation)
        } else {
            Ok(VaultLedger { total_assets: na as u64, total_shares: ns as u64, ..pre })
        }
    }

    /// Create the ledger for a fresh vault: empty pool, not paused.
    ///
    /// `vault_exists` is the host's answer to whether the vault key
    /// already has a ledger; creation is refused exactly when it does.
    pub fn initialize(
        admin: Identity,
        asset_id: Identity,
        share_id: Identity,
        custodial_account: Identity,
        vault_exists: bool,
    ) -> (r: Result<VaultLedger, VaultError>)
        ensures
            vault_exists ==> r == Err::<VaultLedger, VaultError>(VaultError::AlreadyInitialized),
            !vault_exists ==> r == Ok::<VaultLedger, VaultError>(
                VaultLedger {
                    admin,
                    paused: false,
                    asset_id,
                    share_id,
                    custodial_asset_account: custodial_account,
                    total_assets: 0,
                    total_shares: 0,
                },
            ),
            r matches Ok(l) ==> l.wf(),
    {
        if vault_exists {
            return Err(VaultError::AlreadyInitialized);
        }
        Ok(
            VaultLedger {
                admin,
                paused: false,
                asset_id,
                share_id,
                custodial_asset_account: custodial_account,
                total_assets: 0,
                total_shares: 0,
            },
        )
    }

    /// The pool's asset units as tracked by this ledger.
    pub fn total_assets(&self) -> (r: u64)
        ensures
            r == self.total_assets,
    {
        self.total_assets
    }

    /// The share units currently outstanding.
    pub fn total_shares(&self) -> (r: u64)
        ensures
            r == self.total_shares,
    {
        self.total_shares
    }

    /// Whether the vault is closed to deposits and withdrawals.
    pub fn is_paused(&self) -> (r: bool)
        ensures
            r == self.paused,
    {
        self.paused
    }

    /// The identity currently authorized for admin operations.
    pub fn admin(&self) -> (r: Identity)
        ensures
            r == self.admin,
    {
        self.admin
    }

    /// Atomically shift both running totals, with checked arithmetic.
    ///
    /// Either both totals move or neither does: every error leaves the
    /// ledger exactly as it was. The zero-symmetry check is defense in
    /// depth; the exchange engine never reaches it.
    pub fn apply(&mut self, delta_assets: i128, delta_shares: i128) -> (r: Result<(), VaultError>)
        ensures
            match VaultLedger::spec_apply(*old(self), delta_assets as int, delta_shares as int) {
                Ok(next) => r == Ok::<(), VaultError>(()) && *final(self) == next,
                Err(e) => r == Err::<(), VaultError>(e) && *final(self) == *old(self),
            },
    {
        let ta = self.total_assets as i128;
        let ts = self.total_shares as i128;
        // A 64-bit total plus an i128 delta can only exceed the i128
        // range upward; track that case separately instead of adding.
        let assets_high = delta_assets > i128::MAX - ta;
        let shares_high = delta_shares > i128::MAX - ts;
        let na: i128 = if assets_high {
            0
        } else {
            ta + delta_assets
        };
        let ns: i128 = if shares_high {
            0
        } else {
            ts + delta_shares
        };
        if (!assets_high && na < 0) || (!shares_high && ns < 0) {
            return Err(VaultError::Underflow);
        }
        if assets_high || shares_high || na > u64::MAX as i128 || ns > u64::MAX as i128 {
            return Err(VaultError::Overflow);
        }
        if (na == 0) != (ns == 0) {
            return Err(VaultError::InvariantViolation);
        }
        self.total_assets = na as u64;
        self.total_shares = ns as u64;
        Ok(())
    }
}

} // verus!
