//! Adding to a vault's bounty.

use crate::errors::VaultError;
use crate::ledger::LedgerAction;
use crate::state::{authorize, authorized, Pubkey, Role, Vault, VaultView};
use vstd::prelude::*;

verus! {

/// An addition to the bounty, paid by the owner.
pub struct TopUpBounty {
    /// The record whose bounty grows.
    pub vault: Vault,
    /// The caller.
    pub owner: Pubkey,
}

impl TopUpBounty {
    /// The error that a top-up of `amount` asked for by `owner` is refused
    /// with, if any. The first failing check decides.
    pub open spec fn refusal(vault: VaultView, owner: Pubkey, amount: u64) -> Option<VaultError> {
        if !authorized(Role::Owner, owner, vault) {
            Some(VaultError::Unauthorized)
        } else if vault.is_released {
            Some(VaultError::AlreadyReleased)
        } else if amount == 0 {
            Some(VaultError::InvalidAmount)
        } else if vault.bounty + amount > u64::MAX {
            Some(VaultError::Overflow)
        } else {
            None
        }
    }

    /// The record after an accepted top-up: the bounty has grown by `amount`.
    pub open spec fn applied(vault: VaultView, amount: u64) -> VaultView {
        VaultView { bounty: (vault.bounty + amount) as u64, ..vault }
    }

    /// What an accepted top-up asks of the ledger: the owner pays `amount` in.
    pub open spec fn request(amount: u64) -> LedgerAction {
        LedgerAction::Deposit { amount }
    }

    /// Raises the bounty by `amount`, which the owner pays into the vault.
    pub fn handler(&mut self, amount: u64) -> (r: Result<LedgerAction, VaultError>)
        ensures
            final(self).owner == old(self).owner,
            match Self::refusal(old(self).vault@, old(self).owner, amount) {
                Some(e) => (r matches Err(err) && err == e) && final(self).vault == old(self).vault,
                None => {
                    &&& r matches Ok(action)
                    &&& action == Self::request(amount)
                    &&& final(self).vault@ == Self::applied(old(self).vault@, amount)
                },
            },
            old(self).vault@.well_formed() ==> final(self).vault@.well_formed(),
    {
        if !authorize(Role::Owner, &self.owner, &self.vault) {
            return Err(VaultError::Unauthorized);
        }
        if self.vault.is_released {
            return Err(VaultError::AlreadyReleased);
        }
        if amount == 0 {
            return Err(VaultError::InvalidAmount);
        }
        let bounty: u64 = match self.vault.bounty.checked_add(amount) {
            Some(b) => b,
            None => {
                return Err(VaultError::Overflow);
            },
        };
        self.vault.bounty = bounty;
        Ok(LedgerAction::Deposit { amount })
    }
}

} // verus!
