//! Locking a fungible asset into a vault.

use crate::errors::VaultError;
use crate::ledger::LedgerAction;
use crate::state::{authorize, authorized, Pubkey, Role, Vault, VaultView};
use vstd::prelude::*;

verus! {

/// A balance of one asset on the ledger, as far as the engine reads it.
#[derive(Clone, Copy, Debug, PartialEq, Eq)]
pub struct TokenAccount {
    /// The identity that controls the balance.
    pub owner: Pubkey,
    /// The asset the balance is in.
    pub mint: Pubkey,
}

/// The locking of an asset into the vault by its owner. A vault takes one
/// asset, once.
pub struct LockTokens {
    /// The record to lock into.
    pub vault: Vault,
    /// The caller.
    pub owner: Pubkey,
    /// The asset to lock.
    pub token_mint: Pubkey,
    /// The balance the asset is taken from.
    pub owner_token_account: TokenAccount,
}

impl LockTokens {
    /// The error that locking `amount` of `token_mint` out of `source`, asked
    /// for by `owner`, is refused with, if any. The first failing check
    /// decides.
    pub open spec fn refusal(
        vault: VaultView,
        owner: Pubkey,
        token_mint: Pubkey,
        source: TokenAccount,
        amount: u64,
    ) -> Option<VaultError> {
        if !authorized(Role::Owner, owner, vault) {
            Some(VaultError::Unauthorized)
        } else if vault.is_released {
            Some(VaultError::AlreadyReleased)
        } else if vault.asset_mint is Some {
            Some(VaultError::AlreadyLocked)
        } else if source.owner != owner {
            Some(VaultError::Unauthorized)
        } else if source.mint != token_mint {
            Some(VaultError::InvalidMint)
        } else if amount == 0 {
            Some(VaultError::InvalidAmount)
        } else {
            None
        }
    }

    /// The record after an accepted lock: the asset is named and its balance is
    /// `amount`.
    pub open spec fn applied(vault: VaultView, token_mint: Pubkey, amount: u64) -> VaultView {
        VaultView { asset_mint: Some(token_mint), locked_asset_amount: amount, ..vault }
    }

    /// What an accepted lock asks of the ledger.
    pub open spec fn request(token_mint: Pubkey, amount: u64) -> LedgerAction {
        LedgerAction::DepositAsset { mint: token_mint, amount }
    }

    /// Locks `amount` of the asset into the vault, out of a balance that the
    /// owner controls.
    pub fn handler(&mut self, amount: u64) -> (r: Result<LedgerAction, VaultError>)
        ensures
            final(self).owner == old(self).owner,
            final(self).token_mint == old(self).token_mint,
            final(self).owner_token_account == old(self).owner_token_account,
            match Self::refusal(
                old(self).vault@,
                old(self).owner,
                old(self).token_mint,
                old(self).owner_token_account,
                amount,
            ) {
                Some(e) => (r matches Err(err) && err == e) && final(self).vault == old(self).vault,
                None => {
                    &&& r matches Ok(action)
                    &&& action == Self::request(old(self).token_mint, amount)
                    &&& final(self).vault@ == Self::applied(
                        old(self).vault@,
                        old(self).token_mint,
                        amount,
                    )
                },
            },
            old(self).vault@.well_formed() ==> final(self).vault@.well_formed(),
    {
        if !authorize(Role::Owner, &self.owner, &self.vault) {
            return Err(VaultError::Unauthorized);
        }
        if self.vault.is_released {
            return Err(VaultError::AlreadyReleased);
        }
        if self.vault.asset_mint.is_some() {
            return Err(VaultError::AlreadyLocked);
        }
        if self.owner_token_account.owner != self.owner {
            return Err(VaultError::Unauthorized);
        }
        if self.owner_token_account.mint != self.token_mint {
            return Err(VaultError::InvalidMint);
        }
        if amount == 0 {
            return Err(VaultError::InvalidAmount);
        }
        self.vault.asset_mint = Some(self.token_mint);
        self.vault.locked_asset_amount = amount;
        Ok(LedgerAction::DepositAsset { mint: self.token_mint, amount })
    }
}

} // verus!
