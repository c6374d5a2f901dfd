//! The errors an operation can be refused with.

use vstd::prelude::*;

verus! {

/// Why an operation was refused. A refused operation has no effect at all.
#[derive(Clone, Copy, Debug, PartialEq, Eq, Structural)]
pub enum VaultError {
    /// The caller is not the identity this operation is reserved for.
    Unauthorized,
    /// The liveness window has not run out yet.
    NotExpired,
    /// The vault has already been released.
    AlreadyReleased,
    /// The payload reference is longer than its maximum.
    PayloadReferenceTooLong,
    /// The encrypted key is longer than its maximum.
    EncryptedKeyTooLong,
    /// The liveness window must be greater than zero.
    InvalidTimeInterval,
    /// A checked addition did not fit its type.
    Overflow,
    /// The amount must be greater than zero.
    InvalidAmount,
    /// Paying out would leave the vault below the ledger's minimum retention.
    InsufficientBalance,
    /// The name is longer than its maximum.
    NameTooLong,
    /// Only the recipient may claim.
    NotRecipient,
    /// The vault has not been released yet.
    NotReleased,
    /// The vault holds no native currency to claim.
    NoLockedNative,
    /// The vault already holds an asset.
    AlreadyLocked,
    /// The vault holds no asset.
    NoAssetLocked,
    /// The asset presented is not the one the vault holds.
    InvalidMint,
    /// The asset has already been claimed.
    AlreadyClaimed,
}

/// The families that the errors fall into.
#[derive(Clone, Copy, Debug, PartialEq, Eq, Structural)]
pub enum ErrorKind {
    /// The caller lacks the role the operation asks for.
    Authorization,
    /// The operation came at the wrong point of the vault's life.
    Timing,
    /// An argument is out of bounds.
    Validation,
    /// An amount or a timestamp left the range of its type.
    Arithmetic,
    /// The record is not in the state the operation needs.
    State,
    /// The vault's balance does not cover the operation.
    Resource,
}

impl VaultError {
    /// The family of this error.
    pub open spec fn spec_kind(self) -> ErrorKind {
        match self {
            VaultError::Unauthorized | VaultError::NotRecipient => ErrorKind::Authorization,
            VaultError::NotExpired | VaultError::AlreadyReleased | VaultError::NotReleased => {
                ErrorKind::Timing
            },
            VaultError::PayloadReferenceTooLong
            | VaultError::EncryptedKeyTooLong
            | VaultError::NameTooLong
            | VaultError::InvalidTimeInterval
            | VaultError::InvalidAmount
            | VaultError::InvalidMint => ErrorKind::Validation,
            VaultError::Overflow => ErrorKind::Arithmetic,
            VaultError::AlreadyLocked
            | VaultError::NoLockedNative
            | VaultError::NoAssetLocked
            | VaultError::AlreadyClaimed => ErrorKind::State,
            VaultError::InsufficientBalance => ErrorKind::Resource,
        }
    }

    /// The family of this error.
    #[verifier::when_used_as_spec(spec_kind)]
    pub fn kind(self) -> (k: ErrorKind)
        ensures
            k == self.spec_kind(),
    {
        match self {
            VaultError::Unauthorized | VaultError::NotRecipient => ErrorKind::Authorization,
            VaultError::NotExpired | VaultError::AlreadyReleased | VaultError::NotReleased => {
                ErrorKind::Timing
            },
            VaultError::PayloadReferenceTooLong
            | VaultError::EncryptedKeyTooLong
            | VaultError::NameTooLong
            | VaultError::InvalidTimeInterval
            | VaultError::InvalidAmount
            | VaultError::InvalidMint => ErrorKind::Validation,
            VaultError::Overflow => ErrorKind::Arithmetic,
            VaultError::AlreadyLocked
            | VaultError::NoLockedNative
            | VaultError::NoAssetLocked
            | VaultError::AlreadyClaimed => ErrorKind::State,
            VaultError::InsufficientBalance => ErrorKind::Resource,
        }
    }
}

} // verus!
