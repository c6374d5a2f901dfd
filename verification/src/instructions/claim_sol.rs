//! Claiming the custodied native currency from a released vault.

use crate::errors::VaultError;
use crate::ledger::LedgerAction;
use crate::state::{authorize, authorized, Pubkey, Role, Vault, VaultView};
use vstd::prelude::*;

verus! {

/// A claim of the vault's locked native currency by its recipient.
pub struct ClaimSol {
    /// The record claimed from.
    pub vault: Vault,
    /// The caller.
    pub recipient: Pubkey,
}

impl ClaimSol {
    /// The error that a claim by `recipient` is refused with, if any. The first
    /// failing check decides.
    pub open spec fn refusal(vault: VaultView, recipient: Pubkey) -> Option<VaultError> {
        if !authorized(Role::Recipient, recipient, vault) {
            Some(VaultError::NotRecipient)
        } else if !vault.is_released {
            Some(VaultError::NotReleased)
        } else if vault.locked_native_amount == 0 {
            Some(VaultError::NoLockedNative)
        } else {
            None
        }
    }

    /// The record after an accepted claim: nothing is locked any more.
    pub open spec fn applied(vault: VaultView) -> VaultView {
        VaultView { locked_native_amount: 0, ..vault }
    }

    /// What an accepted claim asks of the ledger: the whole locked amount goes
    /// to the recipient.
    pub open spec fn request(vault: VaultView, recipient: Pubkey) -> LedgerAction {
        LedgerAction::Payout { to: recipient, amount: vault.locked_native_amount }
    }

    /// Hands the vault's whole locked native amount to the recipient, once.
    pub fn handler(&mut self) -> (r: Result<LedgerAction, VaultError>)
        ensures
            final(self).recipient == old(self).recipient,
            match Self::refusal(old(self).vault@, old(self).recipient) {
                Some(e) => (r matches Err(err) && err == e) && final(self).vault == old(self).vault,
                None => {
                    &&& r matches Ok(action)
                    &&& action == Self::request(old(self).vault@, old(self).recipient)
                    &&& final(self).vault@ == Self::applied(old(self).vault@)
                },
            },
            old(self).vault@.well_formed() ==> final(self).vault@.well_formed(),
    {
        if !authorize(Role::Recipient, &self.recipient, &self.vault) {
            return Err(VaultError::NotRecipient);
        }
        if !self.vault.is_released {
            return Err(VaultError::NotReleased);
        }
        let amount = self.vault.locked_native_amount;
        if amount == 0 {
            return Err(VaultError::NoLockedNative);
        }
        self.vault.locked_native_amount = 0;
        Ok(LedgerAction::Payout { to: self.recipient, amount })
    }
}

} // verus!
