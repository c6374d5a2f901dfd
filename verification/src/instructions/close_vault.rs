//! Closing a vault from the owner's side.

use crate::errors::VaultError;
use crate::ledger::LedgerAction;
use crate::state::{authorize, authorized, Pubkey, Role, Vault, VaultView};
use vstd::prelude::*;

verus! {

/// The destruction of a vault by its owner, who gets the record's storage
/// deposit back. The state of the vault plays no part, and what it still holds
/// in custody is not moved.
pub struct CloseVault {
    /// The record to destroy.
    pub vault: Vault,
    /// The caller.
    pub owner: Pubkey,
}

impl CloseVault {
    /// The error that closing, asked for by `owner`, is refused with, if any.
    pub open spec fn refusal(vault: VaultView, owner: Pubkey) -> Option<VaultError> {
        if !authorized(Role::Owner, owner, vault) {
            Some(VaultError::Unauthorized)
        } else {
            None
        }
    }

    /// What an accepted close asks of the ledger.
    pub open spec fn request(owner: Pubkey) -> LedgerAction {
        LedgerAction::Close { refund_to: owner }
    }

    /// Decides whether the caller may destroy the record. The record itself is
    /// not changed.
    pub fn handler(&self) -> (r: Result<LedgerAction, VaultError>)
        ensures
            match Self::refusal(self.vault@, self.owner) {
                Some(e) => r matches Err(err) && err == e,
                None => r matches Ok(action) && action == Self::request(self.owner),
            },
    {
        if !authorize(Role::Owner, &self.owner, &self.vault) {
            return Err(VaultError::Unauthorized);
        }
        Ok(LedgerAction::Close { refund_to: self.owner })
    }
}

} // verus!
