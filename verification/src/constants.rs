//! Limits on the bounded fields of a vault record, and the constant seed of
//! vault addresses.

use vstd::prelude::*;

verus! {

/// The seed that every vault's address is derived with, before the owner and
/// the vault's own seed: the bytes of the word "vault".
pub const VAULT_SEED: [u8; 5] = [118, 97, 117, 108, 116];

/// Longest accepted payload reference, in bytes.
pub const MAX_PAYLOAD_REFERENCE_LEN: usize = 64;

/// Longest accepted encrypted key blob, in bytes.
pub const MAX_ENCRYPTED_KEY_LEN: usize = 128;

/// Longest accepted vault name, in bytes.
pub const MAX_VAULT_NAME_LEN: usize = 32;

} // verus!
