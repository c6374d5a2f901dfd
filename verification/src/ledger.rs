//! What an accepted operation asks of the hosting ledger.

use crate::state::Pubkey;
use vstd::prelude::*;

verus! {

/// The one movement of value, or destruction of the record, that an accepted
/// operation asks the ledger to carry out. The ledger applies it together with
/// the new record, or applies neither.
#[derive(Clone, Copy, Debug, PartialEq, Eq)]
pub enum LedgerAction {
    /// Nothing moves.
    Nothing,
    /// Move `amount` of native currency from the owner into the vault's custody.
    Deposit { amount: u64 },
    /// Move `amount` of native currency out of the vault's custody to `to`.
    Payout { to: Pubkey, amount: u64 },
    /// Move `amount` of the asset `mint` from the owner's balance into the
    /// vault's sub-account for that asset.
    DepositAsset { mint: Pubkey, amount: u64 },
    /// Move `amount` of the asset `mint` from the vault's sub-account to `to`,
    /// then close the sub-account and refund its storage deposit to `to`.
    PayoutAsset { mint: Pubkey, to: Pubkey, amount: u64 },
    /// Destroy the record and refund its storage deposit to `refund_to`.
    Close { refund_to: Pubkey },
}

impl LedgerAction {
    /// Native currency that the action brings into the vault's custody.
    pub open spec fn native_in(self) -> nat {
        match self {
            LedgerAction::Deposit { amount } => amount as nat,
            _ => 0,
        }
    }

    /// Native currency that the action takes out of the vault's custody.
    pub open spec fn native_out(self) -> nat {
        match self {
            LedgerAction::Payout { amount, .. } => amount as nat,
            _ => 0,
        }
    }
}

} // verus!
