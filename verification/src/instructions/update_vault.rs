//! Changing a vault's recipient, liveness window or name.

use crate::constants::MAX_VAULT_NAME_LEN;
use crate::errors::VaultError;
use crate::state::{authorize, authorized, byte_len, stored_len, Pubkey, Role, Vault, VaultView};
use vstd::prelude::*;

verus! {

/// The text of an optional string.
pub open spec fn text_of(s: Option<String>) -> Option<Seq<char>> {
    match s {
        Some(t) => Some(t@),
        None => None,
    }
}

/// A change of settings by the owner. Each setting is given or left out on its
/// own.
pub struct UpdateVault {
    /// The record to change.
    pub vault: Vault,
    /// The caller.
    pub owner: Pubkey,
}

impl UpdateVault {
    /// The error that an update asked for by `owner` is refused with, if any.
    /// A setting that is left out is not checked; the first failing check
    /// decides.
    pub open spec fn refusal(
        vault: VaultView,
        owner: Pubkey,
        new_time_interval: Option<i64>,
        new_name: Option<Seq<char>>,
    ) -> Option<VaultError> {
        if !authorized(Role::Owner, owner, vault) {
            Some(VaultError::Unauthorized)
        } else if vault.is_released {
            Some(VaultError::AlreadyReleased)
        } else if new_time_interval matches Some(t) && t <= 0 {
            Some(VaultError::InvalidTimeInterval)
        } else if new_name matches Some(n) && stored_len(n) > MAX_VAULT_NAME_LEN {
            Some(VaultError::NameTooLong)
        } else {
            None
        }
    }

    /// The record after an accepted update: each setting that was given takes
    /// the new value, every other field stays.
    pub open spec fn applied(
        vault: VaultView,
        new_recipient: Option<Pubkey>,
        new_time_interval: Option<i64>,
        new_name: Option<Seq<char>>,
    ) -> VaultView {
        VaultView {
            recipient: match new_recipient {
                Some(r) => r,
                None => vault.recipient,
            },
            time_interval: match new_time_interval {
                Some(t) => t,
                None => vault.time_interval,
            },
            name: match new_name {
                Some(n) => n,
                None => vault.name,
            },
            ..vault
        }
    }

    /// Applies the settings that are given, all of them or none. The new
    /// liveness window counts from the next expiry check on.
    pub fn handler(
        &mut self,
        new_recipient: Option<Pubkey>,
        new_time_interval: Option<i64>,
        new_name: Option<String>,
    ) -> (r: Result<(), VaultError>)
        ensures
            final(self).owner == old(self).owner,
            match Self::refusal(
                old(self).vault@,
                old(self).owner,
                new_time_interval,
                text_of(new_name),
            ) {
                Some(e) => r == Err::<(), VaultError>(e) && final(self).vault == old(self).vault,
                None => {
                    &&& r is Ok
                    &&& final(self).vault@ == Self::applied(
                        old(self).vault@,
                        new_recipient,
                        new_time_interval,
                        text_of(new_name),
                    )
                },
            },
            old(self).vault@.well_formed() ==> final(self).vault@.well_formed(),
    {
        if !authorize(Role::Owner, &self.owner, &self.vault) {
            return Err(VaultError::Unauthorized);
        }
        if self.vault.is_released {
            return Err(VaultError::AlreadyReleased);
        }
        if let Some(interval) = new_time_interval {
            if interval <= 0 {
                return Err(VaultError::InvalidTimeInterval);
            }
        }
        match &new_name {
            Some(name) => {
                if byte_len(name) > MAX_VAULT_NAME_LEN {
                    return Err(VaultError::NameTooLong);
                }
            },
            None => {},
        }
        if let Some(recipient) = new_recipient {
            self.vault.recipient = recipient;
        }
        if let Some(interval) = new_time_interval {
            self.vault.time_interval = interval;
        }
        if let Some(name) = new_name {
            self.vault.name = name;
        }
        Ok(())
    }
}

} // verus!
