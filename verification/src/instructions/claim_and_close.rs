//! Closing a vault from the recipient's side.

use crate::errors::VaultError;
use crate::ledger::LedgerAction;
use crate::state::{authorize, authorized, Pubkey, Role, Vault, VaultView};
use vstd::prelude::*;

verus! {

/// The destruction of an expired or released vault by its recipient, who gets
/// the record's storage deposit. What the vault still holds in custody is not
/// moved: the recipient claims it before closing, or leaves it behind.
pub struct ClaimAndClose {
    /// The record to destroy.
    pub vault: Vault,
    /// The caller.
    pub recipient: Pubkey,
}

impl ClaimAndClose {
    /// The error that closing at `now`, asked for by `recipient`, is refused
    /// with, if any. The expiry is computed before the release flag is looked
    /// at, so an expiry out of range is refused on a released vault too.
    pub open spec fn refusal(vault: VaultView, recipient: Pubkey, now: i64) -> Option<VaultError> {
        if !authorized(Role::Recipient, recipient, vault) {
            Some(VaultError::Unauthorized)
        } else if vault.expiry_overflows() {
            Some(VaultError::Overflow)
        } else if !(vault.expired_at(now) || vault.is_released) {
            Some(VaultError::NotExpired)
        } else {
            None
        }
    }

    /// What an accepted close asks of the ledger.
    pub open spec fn request(recipient: Pubkey) -> LedgerAction {
        LedgerAction::Close { refund_to: recipient }
    }

    /// Decides whether the recipient may destroy the record at `now`, the
    /// ledger's time. The record itself is not changed.
    pub fn handler(&self, now: i64) -> (r: Result<LedgerAction, VaultError>)
        ensures
            match Self::refusal(self.vault@, self.recipient, now) {
                Some(e) => r matches Err(err) && err == e,
                None => r matches Ok(action) && action == Self::request(self.recipient),
            },
    {
        if !authorize(Role::Recipient, &self.recipient, &self.vault) {
            return Err(VaultError::Unauthorized);
        }
        let expiry: i64 = match self.vault.expiry() {
            Some(t) => t,
            None => {
                return Err(VaultError::Overflow);
            },
        };
        if !(now > expiry || self.vault.is_released) {
            return Err(VaultError::NotExpired);
        }
        Ok(LedgerAction::Close { refund_to: self.recipient })
    }
}

} // verus!
