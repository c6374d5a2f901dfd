//! The operations on a vault, one module each.
//!
//! Every operation is a type that holds, as plain values, the record and the
//! identities it works on, with a `handler` that decides. Beside the handler
//! stand the spec functions its contract is made of: `refusal`, the error the
//! call is refused with on given inputs, if any; `applied`, the record that an
//! accepted call leaves behind; and `request`, what it asks of the ledger.

pub mod claim_and_close;
pub mod claim_sol;
pub mod claim_tokens;
pub mod close_vault;
pub mod initialize_vault;
pub mod lock_tokens;
pub mod ping;
pub mod set_delegate;
pub mod top_up_bounty;
pub mod trigger_release;
pub mod update_vault;

pub use claim_and_close::ClaimAndClose;
pub use claim_sol::ClaimSol;
pub use claim_tokens::ClaimTokens;
pub use close_vault::CloseVault;
pub use initialize_vault::InitializeVault;
pub use lock_tokens::{LockTokens, TokenAccount};
pub use ping::Ping;
pub use set_delegate::SetDelegate;
pub use top_up_bounty::TopUpBounty;
pub use trigger_release::TriggerRelease;
pub use update_vault::UpdateVault;
