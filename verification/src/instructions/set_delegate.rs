//! Naming or dismissing a vault's delegate.

use crate::errors::VaultError;
use crate::state::{authorize, authorized, Pubkey, Role, Vault, VaultView};
use vstd::prelude::*;

verus! {

/// The appointment of a delegate by the owner. A delegate may ping and do
/// nothing else.
pub struct SetDelegate {
    /// The record whose delegate changes.
    pub vault: Vault,
    /// The caller.
    pub owner: Pubkey,
}

impl SetDelegate {
    /// The error that an appointment asked for by `owner` is refused with, if
    /// any. The first failing check decides.
    pub open spec fn refusal(vault: VaultView, owner: Pubkey) -> Option<VaultError> {
        if !authorized(Role::Owner, owner, vault) {
            Some(VaultError::Unauthorized)
        } else if vault.is_released {
            Some(VaultError::AlreadyReleased)
        } else {
            None
        }
    }

    /// The record after an accepted appointment: the delegate is the one given,
    /// or none.
    pub open spec fn applied(vault: VaultView, new_delegate: Option<Pubkey>) -> VaultView {
        VaultView { delegate: new_delegate, ..vault }
    }

    /// Replaces the delegate by `new_delegate`; `None` leaves the vault without
    /// one.
    pub fn handler(&mut self, new_delegate: Option<Pubkey>) -> (r: Result<(), VaultError>)
        ensures
            final(self).owner == old(self).owner,
            match Self::refusal(old(self).vault@, old(self).owner) {
                Some(e) => r == Err::<(), VaultError>(e) && final(self).vault == old(self).vault,
                None => r is Ok && final(self).vault@ == Self::applied(
                    old(self).vault@,
                    new_delegate,
                ),
            },
            old(self).vault@.well_formed() ==> final(self).vault@.well_formed(),
    {
        if !authorize(Role::Owner, &self.owner, &self.vault) {
            return Err(VaultError::Unauthorized);
        }
        if self.vault.is_released {
            return Err(VaultError::AlreadyReleased);
        }
        self.vault.delegate = new_delegate;
        Ok(())
    }
}

} // verus!
