//! Renewing a vault's liveness.

use crate::errors::VaultError;
use crate::state::{authorize, authorized, Pubkey, Role, Vault, VaultView};
use vstd::prelude::*;

verus! {

/// A proof of liveness by the owner or the delegate. Nothing else renews a
/// vault.
pub struct Ping {
    /// The record to renew.
    pub vault: Vault,
    /// The caller.
    pub signer: Pubkey,
}

impl Ping {
    /// The error that a ping by `signer` is refused with, if any. The first
    /// failing check decides.
    pub open spec fn refusal(vault: VaultView, signer: Pubkey) -> Option<VaultError> {
        if vault.is_released {
            Some(VaultError::AlreadyReleased)
        } else if !authorized(Role::OwnerOrDelegate, signer, vault) {
            Some(VaultError::Unauthorized)
        } else {
            None
        }
    }

    /// The record after an accepted ping at `now`: checked in at `now`, every
    /// other field as before.
    pub open spec fn applied(vault: VaultView, now: i64) -> VaultView {
        VaultView { last_check_in: now, ..vault }
    }

    /// Records `now`, the ledger's time, as the vault's last check-in.
    pub fn handler(&mut self, now: i64) -> (r: Result<(), VaultError>)
        ensures
            final(self).signer == old(self).signer,
            match Self::refusal(old(self).vault@, old(self).signer) {
                Some(e) => r == Err::<(), VaultError>(e) && final(self).vault == old(self).vault,
                None => r is Ok && final(self).vault@ == Self::applied(old(self).vault@, now),
            },
            old(self).vault@.well_formed() ==> final(self).vault@.well_formed(),
    {
        if self.vault.is_released {
            return Err(VaultError::AlreadyReleased);
        }
        if !authorize(Role::OwnerOrDelegate, &self.signer, &self.vault) {
            return Err(VaultError::Unauthorized);
        }
        self.vault.last_check_in = now;
        Ok(())
    }
}

} // verus!
