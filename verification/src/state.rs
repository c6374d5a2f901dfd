//! The vault record, the identities it names and the roles they play.

use crate::constants::{
    MAX_ENCRYPTED_KEY_LEN, MAX_PAYLOAD_REFERENCE_LEN, MAX_VAULT_NAME_LEN, VAULT_SEED,
};
use vstd::bytes::{spec_u64_to_le_bytes, u64_to_le_bytes};
use vstd::prelude::*;
use vstd::slice::slice_to_vec;
use vstd::utf8::encode_utf8;

verus! {

/// An identity on the ledger: 32 opaque bytes. Two identities are the same
/// exactly when their bytes are.
#[derive(Clone, Copy, Debug, Eq, Hash)]
pub struct Pubkey {
    pub bytes: [u8; 32],
}

impl PartialEq for Pubkey {
    fn eq(&self, other: &Pubkey) -> (r: bool) {
        let mut i: usize = 0;
        while i < 32
            invariant
                i <= 32,
                forall|j: int| 0 <= j < i ==> self.bytes[j] == other.bytes[j],
            decreases 32 - i,
        {
            if self.bytes[i] != other.bytes[i] {
                return false;
            }
            i += 1;
        }
        assert(self.bytes =~= other.bytes);
        true
    }
}

impl vstd::std_specs::cmp::PartialEqSpecImpl for Pubkey {
    open spec fn obeys_eq_spec() -> bool {
        true
    }

    open spec fn eq_spec(&self, other: &Pubkey) -> bool {
        *self == *other
    }
}

/// The number of bytes a string takes up when stored.
pub open spec fn stored_len(s: Seq<char>) -> nat {
    encode_utf8(s).len()
}

/// The number of bytes `s` takes up when stored.
pub fn byte_len(s: &String) -> (n: usize)
    ensures
        n == stored_len(s@),
{
    s.as_str().as_bytes().len()
}

/// One dead man's switch: who owns it, who inherits, where the payload lies,
/// how long the owner may stay silent, and what the vault holds in custody.
#[derive(Clone, Debug, PartialEq, Eq)]
pub struct Vault {
    /// The identity that created the vault. Never changes.
    pub owner: Pubkey,
    /// The identity entitled to claim once the vault is released.
    pub recipient: Pubkey,
    /// Content address of the encrypted payload. Never changes.
    pub payload_reference: String,
    /// The payload's key, itself encrypted. Never changes.
    pub encrypted_key: String,
    /// The liveness window in seconds.
    pub time_interval: i64,
    /// When the owner, or the delegate, last proved liveness.
    pub last_check_in: i64,
    /// Whether the vault has been released. Once set it stays set.
    pub is_released: bool,
    /// The seed that, with the owner, fixes the vault's address.
    pub derivation_seed: u64,
    /// The byte that completes the derivation of the vault's address.
    pub derivation_proof: u8,
    /// An identity that may ping in the owner's place, and do nothing else.
    pub delegate: Option<Pubkey>,
    /// What is paid to whoever releases the vault.
    pub bounty: u64,
    /// A label for display.
    pub name: String,
    /// Native currency held for the recipient.
    pub locked_native_amount: u64,
    /// The asset held for the recipient, if one was ever locked.
    pub asset_mint: Option<Pubkey>,
    /// How much of that asset is still held.
    pub locked_asset_amount: u64,
}

/// The mathematical content of a [`Vault`]. All contracts speak of this.
pub struct VaultView {
    pub owner: Pubkey,
    pub recipient: Pubkey,
    pub payload_reference: Seq<char>,
    pub encrypted_key: Seq<char>,
    pub time_interval: i64,
    pub last_check_in: i64,
    pub is_released: bool,
    pub derivation_seed: u64,
    pub derivation_proof: u8,
    pub delegate: Option<Pubkey>,
    pub bounty: u64,
    pub name: Seq<char>,
    pub locked_native_amount: u64,
    pub asset_mint: Option<Pubkey>,
    pub locked_asset_amount: u64,
}

impl View for Vault {
    type V = VaultView;

    open spec fn view(&self) -> VaultView {
        VaultView {
            owner: self.owner,
            recipient: self.recipient,
            payload_reference: self.payload_reference@,
            encrypted_key: self.encrypted_key@,
            time_interval: self.time_interval,
            last_check_in: self.last_check_in,
            is_released: self.is_released,
            derivation_seed: self.derivation_seed,
            derivation_proof: self.derivation_proof,
            delegate: self.delegate,
            bounty: self.bounty,
            name: self.name@,
            locked_native_amount: self.locked_native_amount,
            asset_mint: self.asset_mint,
            locked_asset_amount: self.locked_asset_amount,
        }
    }
}

impl VaultView {
    /// Every bounded field is within its maximum.
    pub open spec fn within_bounds(self) -> bool {
        &&& stored_len(self.payload_reference) <= MAX_PAYLOAD_REFERENCE_LEN
        &&& stored_len(self.encrypted_key) <= MAX_ENCRYPTED_KEY_LEN
        &&& stored_len(self.name) <= MAX_VAULT_NAME_LEN
    }

    /// What holds of every record that the operations create and leave behind:
    /// the bounded fields are within their maxima, the liveness window is
    /// positive, and an asset balance implies that the asset is named.
    pub open spec fn well_formed(self) -> bool {
        &&& self.within_bounds()
        &&& self.time_interval > 0
        &&& self.locked_asset_amount > 0 ==> self.asset_mint is Some
    }

    /// The moment after which the vault counts as expired, as an unbounded
    /// integer.
    pub open spec fn expiry(self) -> int {
        self.last_check_in + self.time_interval
    }

    /// Whether the expiry leaves the range of a timestamp.
    pub open spec fn expiry_overflows(self) -> bool {
        self.expiry() < i64::MIN || self.expiry() > i64::MAX
    }

    /// Whether the liveness window has run out at `now`. The moment of expiry
    /// itself is not yet expired.
    pub open spec fn expired_at(self, now: i64) -> bool {
        now > self.expiry()
    }

    /// The native currency that the vault holds in custody for others: the
    /// bounty and the amount locked for the recipient.
    pub open spec fn custody(self) -> nat {
        (self.bounty + self.locked_native_amount) as nat
    }
}

/// The parts that a caller can play towards a vault.
#[derive(Clone, Copy, Debug, PartialEq, Eq, Structural)]
pub enum Role {
    /// The identity that created the vault.
    Owner,
    /// The owner, or the delegate the owner has named.
    OwnerOrDelegate,
    /// The identity entitled to claim.
    Recipient,
    /// Any identity at all.
    Anyone,
}

/// Whether `caller` plays `role` towards the vault.
pub open spec fn authorized(role: Role, caller: Pubkey, vault: VaultView) -> bool {
    match role {
        Role::Owner => caller == vault.owner,
        Role::OwnerOrDelegate => caller == vault.owner || vault.delegate == Some(caller),
        Role::Recipient => caller == vault.recipient,
        Role::Anyone => true,
    }
}

/// Decides whether `caller` plays `role` towards `vault`. Every operation
/// consults this, and nothing else, to admit its caller.
pub fn authorize(role: Role, caller: &Pubkey, vault: &Vault) -> (r: bool)
    ensures
        r == authorized(role, *caller, vault@),
{
    match role {
        Role::Owner => *caller == vault.owner,
        Role::OwnerOrDelegate => {
            *caller == vault.owner || match vault.delegate {
                Some(d) => d == *caller,
                None => false,
            }
        },
        Role::Recipient => *caller == vault.recipient,
        Role::Anyone => true,
    }
}

impl Vault {
    /// The seeds with which the vault authorises movements out of its own
    /// accounts. They are the seeds its address was derived from, in order:
    /// the constant seed, the owner's bytes, the derivation seed in
    /// little-endian order, and the derivation proof.
    pub fn signer_seeds(&self) -> (r: Vec<Vec<u8>>)
        ensures
            r@.len() == 4,
            r@[0]@ == VAULT_SEED@,
            r@[1]@ == self.owner.bytes@,
            r@[2]@ == spec_u64_to_le_bytes(self.derivation_seed),
            r@[3]@ == seq![self.derivation_proof],
    {
        let mut proof_byte: Vec<u8> = Vec::new();
        proof_byte.push(self.derivation_proof);
        let mut seeds: Vec<Vec<u8>> = Vec::new();
        seeds.push(slice_to_vec(VAULT_SEED.as_slice()));
        seeds.push(slice_to_vec(self.owner.bytes.as_slice()));
        seeds.push(u64_to_le_bytes(self.derivation_seed));
        seeds.push(proof_byte);
        seeds
    }

    /// The moment after which the vault counts as expired, or `None` where
    /// adding the liveness window to the last check-in leaves the range of a
    /// timestamp.
    pub fn expiry(&self) -> (r: Option<i64>)
        ensures
            r is None <==> self@.expiry_overflows(),
            r matches Some(t) ==> t == self@.expiry(),
    {
        self.last_check_in.checked_add(self.time_interval)
    }
}

} // verus!
