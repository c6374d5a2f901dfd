//! Releasing an expired vault.

use crate::errors::VaultError;
use crate::ledger::LedgerAction;
use crate::state::{authorize, Pubkey, Role, Vault, VaultView};
use vstd::prelude::*;

verus! {

/// The release of a vault whose liveness window has run out. Any identity may
/// ask for it; whoever does is the hunter and collects the bounty.
pub struct TriggerRelease {
    /// The record to release.
    pub vault: Vault,
    /// The caller.
    pub hunter: Pubkey,
}

impl TriggerRelease {
    /// Whether paying the bounty out of `vault_balance` would leave the vault
    /// with less than `min_retention`.
    pub open spec fn underfunded(vault: VaultView, vault_balance: u64, min_retention: u64) -> bool {
        vault.bounty > 0 && vault_balance - vault.bounty < min_retention
    }

    /// The error that a release at `now` is refused with, if any, where the
    /// vault's account holds `vault_balance` and the ledger wants
    /// `min_retention` to stay in it. The first failing check decides; who
    /// calls plays no part.
    pub open spec fn refusal(vault: VaultView, now: i64, vault_balance: u64, min_retention: u64)
        -> Option<VaultError> {
        if vault.is_released {
            Some(VaultError::AlreadyReleased)
        } else if vault.expiry_overflows() {
            Some(VaultError::Overflow)
        } else if !vault.expired_at(now) {
            Some(VaultError::NotExpired)
        } else if Self::underfunded(vault, vault_balance, min_retention) {
            Some(VaultError::InsufficientBalance)
        } else {
            None
        }
    }

    /// The record after an accepted release: released, with no bounty left.
    pub open spec fn applied(vault: VaultView) -> VaultView {
        VaultView { bounty: 0, is_released: true, ..vault }
    }

    /// What an accepted release asks of the ledger: the bounty goes to the
    /// hunter; where there is none, nothing moves.
    pub open spec fn request(vault: VaultView, hunter: Pubkey) -> LedgerAction {
        if vault.bounty > 0 {
            LedgerAction::Payout { to: hunter, amount: vault.bounty }
        } else {
            LedgerAction::Nothing
        }
    }

    /// Releases the vault if its liveness window has run out at `now`, and pays
    /// the bounty to the caller.
    ///
    /// `vault_balance` is what the vault's account holds, `min_retention` what
    /// the ledger requires a record of this size to keep.
    pub fn handler(&mut self, now: i64, vault_balance: u64, min_retention: u64) -> (r: Result<
        LedgerAction,
        VaultError,
    >)
        ensures
            final(self).hunter == old(self).hunter,
            match Self::refusal(old(self).vault@, now, vault_balance, min_retention) {
                Some(e) => (r matches Err(err) && err == e) && final(self).vault == old(self).vault,
                None => {
                    &&& r matches Ok(action)
                    &&& action == Self::request(old(self).vault@, old(self).hunter)
                    &&& final(self).vault@ == Self::applied(old(self).vault@)
                },
            },
            old(self).vault@.well_formed() ==> final(self).vault@.well_formed(),
    {
        // Anyone may ask, so this never refuses; the caller is admitted the
        // way every operation admits its caller.
        if !authorize(Role::Anyone, &self.hunter, &self.vault) {
            return Err(VaultError::Unauthorized);
        }
        if self.vault.is_released {
            return Err(VaultError::AlreadyReleased);
        }
        let expiry: i64 = match self.vault.expiry() {
            Some(t) => t,
            None => {
                return Err(VaultError::Overflow);
            },
        };
        if now <= expiry {
            return Err(VaultError::NotExpired);
        }
        let bounty = self.vault.bounty;
        let action = if bounty > 0 {
            if vault_balance < bounty || vault_balance - bounty < min_retention {
                return Err(VaultError::InsufficientBalance);
            }
            self.vault.bounty = 0;
            LedgerAction::Payout { to: self.hunter, amount: bounty }
        } else {
            LedgerAction::Nothing
        };
        self.vault.is_released = true;
        Ok(action)
    }
}

} // verus!
