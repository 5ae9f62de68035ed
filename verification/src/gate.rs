use vstd::prelude::*;
use crate::errors::VaultError;
use crate::identity::Identity;
use crate::ledger::VaultLedger;

verus! {

impl VaultLedger {
    /// Close the vault: deposits and withdrawals are rejected until
    /// `unpause`. Only the admin may do this; any other caller fails
    /// with `Unauthorized` and changes nothing. Pausing an already
    /// paused vault is a no-op that still succeeds.
    pub fn pause(&mut self, caller: Identity) -> (r: Result<(), VaultError>)
        ensures
            caller == old(self).admin ==> r == Ok::<(), VaultError>(()) && *final(self) == (
            VaultLedger { paused: true, ..*old(self) }),
            caller != old(self).admin ==> r == Err::<(), VaultError>(VaultError::Unauthorized)
                && *final(self) == *old(self),
    {
        if caller != self.admin {
            return Err(VaultError::Unauthorized);
        }
        self.paused = true;
        Ok(())
    }

    /// Reopen the vault. Only the admin may do this; any other caller
    /// fails with `Unauthorized` and changes nothing.
    pub fn unpause(&mut self, caller: Identity) -> (r: Result<(), VaultError>)
        ensures
            caller == old(self).admin ==> r == Ok::<(), VaultError>(()) && *final(self) == (
            VaultLedger { paused: false, ..*old(self) }),
            caller != old(self).admin ==> r == Err::<(), VaultError>(VaultError::Unauthorized)
                && *final(self) == *old(self),
    {
        if caller != self.admin {
            return Err(VaultError::Unauthorized);
        }
        self.paused = false;
        Ok(())
    }

    /// Hand the admin role to `new_admin`. Only the current admin may
    /// do this; any other caller fails with `Unauthorized` and changes
    /// nothing. The replacement is unconditional: there is no handoff
    /// step and no guard against a degenerate new identity, a known
    /// gap of this design rather than an oversight of the caller.
    pub fn set_admin(&mut self, caller: Identity, new_admin: Identity) -> (r: Result<
        (),
        VaultError,
    >)
        ensures
            caller == old(self).admin ==> r == Ok::<(), VaultError>(()) && *final(self) == (
            VaultLedger { admin: new_admin, ..*old(self) }),
            caller != old(self).admin ==> r == Err::<(), VaultError>(VaultError::Unauthorized)
                && *final(self) == *old(self),
    {
        if caller != self.admin {
            return Err(VaultError::Unauthorized);
        }
        self.admin = new_admin;
        Ok(())
    }
}

} // verus!
