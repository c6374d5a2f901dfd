//! Creating a vault.

use crate::constants::{MAX_ENCRYPTED_KEY_LEN, MAX_PAYLOAD_REFERENCE_LEN, MAX_VAULT_NAME_LEN};
use crate::errors::VaultError;
use crate::ledger::LedgerAction;
use crate::state::{byte_len, stored_len, Pubkey, Vault, VaultView};
use vstd::prelude::*;

verus! {

/// Creation of a vault by its owner. The ledger derives the vault's address
/// from the owner and the seed, and refuses a second creation at an address
/// that exists.
pub struct InitializeVault {
    /// The caller, who becomes the owner and funds the vault.
    pub owner: Pubkey,
}

impl InitializeVault {
    /// The error that creation with these arguments is refused with, if any.
    /// Each bounded field is held against its own maximum; the first failing
    /// check decides.
    pub open spec fn refusal(
        payload_reference: Seq<char>,
        encrypted_key: Seq<char>,
        time_interval: i64,
        bounty: u64,
        name: Seq<char>,
        locked_native_amount: u64,
    ) -> Option<VaultError> {
        if stored_len(payload_reference) > MAX_PAYLOAD_REFERENCE_LEN {
            Some(VaultError::PayloadReferenceTooLong)
        } else if stored_len(encrypted_key) > MAX_ENCRYPTED_KEY_LEN {
            Some(VaultError::EncryptedKeyTooLong)
        } else if time_interval <= 0 {
            Some(VaultError::InvalidTimeInterval)
        } else if stored_len(name) > MAX_VAULT_NAME_LEN {
            Some(VaultError::NameTooLong)
        } else if bounty + locked_native_amount > u64::MAX {
            Some(VaultError::Overflow)
        } else {
            None
        }
    }

    /// The record that an accepted creation at `now` produces: active, checked
    /// in at `now`, with no delegate and no asset.
    pub open spec fn created(
        owner: Pubkey,
        seed: u64,
        payload_reference: Seq<char>,
        encrypted_key: Seq<char>,
        recipient: Pubkey,
        time_interval: i64,
        bounty: u64,
        name: Seq<char>,
        locked_native_amount: u64,
        bump: u8,
        now: i64,
    ) -> VaultView {
        VaultView {
            owner,
            recipient,
            payload_reference,
            encrypted_key,
            time_interval,
            last_check_in: now,
            is_released: false,
            derivation_seed: seed,
            derivation_proof: bump,
            delegate: None,
            bounty,
            name,
            locked_native_amount,
            asset_mint: None,
            locked_asset_amount: 0,
        }
    }

    /// What the owner is to pay in: the bounty and the locked amount together,
    /// or nothing where both are zero.
    pub open spec fn request(bounty: u64, locked_native_amount: u64) -> LedgerAction {
        if bounty + locked_native_amount > 0 {
            LedgerAction::Deposit { amount: (bounty + locked_native_amount) as u64 }
        } else {
            LedgerAction::Nothing
        }
    }

    /// Creates the record of a new vault owned by the caller, and says what the
    /// owner has to pay into its custody.
    ///
    /// `bump` is the byte with which the ledger completed the derivation of the
    /// vault's address from the owner and `seed`; `now` is the ledger's time.
    pub fn handler(
        &self,
        seed: u64,
        payload_reference: String,
        encrypted_key: String,
        recipient: Pubkey,
        time_interval: i64,
        bounty: u64,
        name: String,
        locked_native_amount: u64,
        bump: u8,
        now: i64,
    ) -> (r: Result<(Vault, LedgerAction), VaultError>)
        ensures
            match Self::refusal(
                payload_reference@,
                encrypted_key@,
                time_interval,
                bounty,
                name@,
                locked_native_amount,
            ) {
                Some(e) => r matches Err(err) && err == e,
                None => {
                    &&& r matches Ok((vault, action))
                    &&& vault@ == Self::created(
                        self.owner,
                        seed,
                        payload_reference@,
                        encrypted_key@,
                        recipient,
                        time_interval,
                        bounty,
                        name@,
                        locked_native_amount,
                        bump,
                        now,
                    )
                    &&& vault@.well_formed()
                    &&& action == Self::request(bounty, locked_native_amount)
                },
            },
    {
        if byte_len(&payload_reference) > MAX_PAYLOAD_REFERENCE_LEN {
            return Err(VaultError::PayloadReferenceTooLong);
        }
        if byte_len(&encrypted_key) > MAX_ENCRYPTED_KEY_LEN {
            return Err(VaultError::EncryptedKeyTooLong);
        }
        if time_interval <= 0 {
            return Err(VaultError::InvalidTimeInterval);
        }
        if byte_len(&name) > MAX_VAULT_NAME_LEN {
            return Err(VaultError::NameTooLong);
        }
        let total: u64 = match bounty.checked_add(locked_native_amount) {
            Some(t) => t,
            None => {
                return Err(VaultError::Overflow);
            },
        };
        let vault = Vault {
            owner: self.owner,
            recipient,
            payload_reference,
            encrypted_key,
            time_interval,
            last_check_in: now,
            is_released: false,
            derivation_seed: seed,
            derivation_proof: bump,
            delegate: None,
            bounty,
            name,
            locked_native_amount,
            asset_mint: None,
            locked_asset_amount: 0,
        };
        let action = if total > 0 {
            LedgerAction::Deposit { amount: total }
        } else {
            LedgerAction::Nothing
        };
        Ok((vault, action))
    }
}

} // verus!
