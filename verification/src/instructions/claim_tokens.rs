//! Claiming the custodied asset from a released vault.

use crate::errors::VaultError;
use crate::ledger::LedgerAction;
use crate::state::{authorize, authorized, Pubkey, Role, Vault, VaultView};
use vstd::prelude::*;

verus! {

/// A claim of the vault's asset by its recipient.
pub struct ClaimTokens {
    /// The record claimed from.
    pub vault: Vault,
    /// The caller.
    pub recipient: Pubkey,
    /// The asset the caller presents.
    pub token_mint: Pubkey,
}

impl ClaimTokens {
    /// The error that a claim by `recipient`, presenting `token_mint`, is
    /// refused with, if any. The first failing check decides.
    pub open spec fn refusal(vault: VaultView, recipient: Pubkey, token_mint: Pubkey) -> Option<
        VaultError,
    > {
        if !authorized(Role::Recipient, recipient, vault) {
            Some(VaultError::NotRecipient)
        } else if !vault.is_released {
            Some(VaultError::NotReleased)
        } else if vault.asset_mint is None {
            Some(VaultError::NoAssetLocked)
        } else if vault.locked_asset_amount == 0 {
            Some(VaultError::AlreadyClaimed)
        } else if vault.asset_mint != Some(token_mint) {
            Some(VaultError::InvalidMint)
        } else {
            None
        }
    }

    /// The record after an accepted claim: the asset balance is zero, the asset
    /// stays named.
    pub open spec fn applied(vault: VaultView) -> VaultView {
        VaultView { locked_asset_amount: 0, ..vault }
    }

    /// What an accepted claim asks of the ledger: the whole asset balance goes
    /// to the recipient, and the vault's sub-account is closed in the
    /// recipient's favour.
    pub open spec fn request(vault: VaultView, recipient: Pubkey, token_mint: Pubkey)
        -> LedgerAction {
        LedgerAction::PayoutAsset {
            mint: token_mint,
            to: recipient,
            amount: vault.locked_asset_amount,
        }
    }

    /// Hands the vault's whole asset balance to the recipient, once. The vault
    /// authorises the movement with [`Vault::signer_seeds`].
    pub fn handler(&mut self) -> (r: Result<LedgerAction, VaultError>)
        ensures
            final(self).recipient == old(self).recipient,
            final(self).token_mint == old(self).token_mint,
            match Self::refusal(old(self).vault@, old(self).recipient, old(self).token_mint) {
                Some(e) => (r matches Err(err) && err == e) && final(self).vault == old(self).vault,
                None => {
                    &&& r matches Ok(action)
                    &&& action == Self::request(
                        old(self).vault@,
                        old(self).recipient,
                        old(self).token_mint,
                    )
                    &&& final(self).vault@ == Self::applied(old(self).vault@)
                },
            },
            old(self).vault@.well_formed() ==> final(self).vault@.well_formed(),
    {
        if !authorize(Role::Recipient, &self.recipient, &self.vault) {
            return Err(VaultError::NotRecipient);
        }
        if !self.vault.is_released {
            return Err(VaultError::NotReleased);
        }
        let mint = match self.vault.asset_mint {
            Some(m) => m,
            None => {
                return Err(VaultError::NoAssetLocked);
            },
        };
        if self.vault.locked_asset_amount == 0 {
            return Err(VaultError::AlreadyClaimed);
        }
        if self.token_mint != mint {
            return Err(VaultError::InvalidMint);
        }
        let amount = self.vault.locked_asset_amount;
        self.vault.locked_asset_amount = 0;
        Ok(LedgerAction::PayoutAsset { mint: self.token_mint, to: self.recipient, amount })
    }
}

} // verus!
