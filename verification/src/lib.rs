//! A dead man's switch vault engine.
//!
//! A vault holds a reference to an encrypted payload and, optionally, custodied
//! native currency and one fungible asset. Its owner renews it by pinging; once
//! a ping is overdue anyone may release the vault and collect its bounty, and the
//! recipient may then claim what the vault holds.
//!
//! The engine decides. It never moves value itself: every operation takes the
//! record and the identities involved as plain values, and hands back the new
//! record together with the [`LedgerAction`] that the hosting ledger is to carry
//! out. A refused operation changes nothing and asks for nothing.
//!
//! The functions of this module are the operations by name. Each hands its
//! accounts to the handler of the operation and returns what the handler
//! returns.

pub mod constants;
pub mod errors;
pub mod instructions;
pub mod ledger;
pub mod lifecycle;
pub mod record;
pub mod state;

pub use constants::{
    MAX_ENCRYPTED_KEY_LEN, MAX_PAYLOAD_REFERENCE_LEN, MAX_VAULT_NAME_LEN, VAULT_SEED,
};
pub use errors::{ErrorKind, VaultError};
pub use instructions::{
    ClaimAndClose, ClaimSol, ClaimTokens, CloseVault, InitializeVault, LockTokens, Ping,
    SetDelegate, TokenAccount, TopUpBounty, TriggerRelease, UpdateVault,
};
pub use ledger::LedgerAction;
pub use state::{authorize, Pubkey, Role, Vault, VaultView};

use instructions::update_vault::text_of;
use vstd::prelude::*;

verus! {

/// Creates a vault owned by the caller. See [`InitializeVault::handler`].
pub fn initialize_vault(
    ctx: &InitializeVault,
    seed: u64,
    payload_reference: String,
    encrypted_key: String,
    recipient: Pubkey,
    time_interval: i64,
    bounty: u64,
    name: String,
    locked_native_amount: u64,
    bump: u8,
    now: i64,
) -> (r: Result<(Vault, LedgerAction), VaultError>)
    ensures
        match InitializeVault::refusal(
            payload_reference@,
            encrypted_key@,
            time_interval,
            bounty,
            name@,
            locked_native_amount,
        ) {
            Some(e) => r matches Err(err) && err == e,
            None => {
                &&& r matches Ok((vault, action))
                &&& vault@ == InitializeVault::created(
                    ctx.owner,
                    seed,
                    payload_reference@,
                    encrypted_key@,
                    recipient,
                    time_interval,
                    bounty,
                    name@,
                    locked_native_amount,
                    bump,
                    now,
                )
                &&& vault@.well_formed()
                &&& action == InitializeVault::request(bounty, locked_native_amount)
            },
        },
{
    ctx.handler(
        seed,
        payload_reference,
        encrypted_key,
        recipient,
        time_interval,
        bounty,
        name,
        locked_native_amount,
        bump,
        now,
    )
}

/// Renews the vault's liveness at `now`. See [`Ping::handler`].
pub fn ping(ctx: &mut Ping, now: i64) -> (r: Result<(), VaultError>)
    ensures
        final(ctx).signer == old(ctx).signer,
        match Ping::refusal(old(ctx).vault@, old(ctx).signer) {
            Some(e) => r == Err::<(), VaultError>(e) && final(ctx).vault == old(ctx).vault,
            None => r is Ok && final(ctx).vault@ == Ping::applied(old(ctx).vault@, now),
        },
        old(ctx).vault@.well_formed() ==> final(ctx).vault@.well_formed(),
{
    ctx.handler(now)
}

/// Names or dismisses the vault's delegate. See [`SetDelegate::handler`].
pub fn set_delegate(ctx: &mut SetDelegate, new_delegate: Option<Pubkey>) -> (r: Result<
    (),
    VaultError,
>)
    ensures
        final(ctx).owner == old(ctx).owner,
        match SetDelegate::refusal(old(ctx).vault@, old(ctx).owner) {
            Some(e) => r == Err::<(), VaultError>(e) && final(ctx).vault == old(ctx).vault,
            None => r is Ok && final(ctx).vault@ == SetDelegate::applied(
                old(ctx).vault@,
                new_delegate,
            ),
        },
        old(ctx).vault@.well_formed() ==> final(ctx).vault@.well_formed(),
{
    ctx.handler(new_delegate)
}

/// Releases the vault if it has expired at `now`. See
/// [`TriggerRelease::handler`].
pub fn trigger_release(ctx: &mut TriggerRelease, now: i64, vault_balance: u64, min_retention: u64)
    -> (r: Result<LedgerAction, VaultError>)
    ensures
        final(ctx).hunter == old(ctx).hunter,
        match TriggerRelease::refusal(old(ctx).vault@, now, vault_balance, min_retention) {
            Some(e) => (r matches Err(err) && err == e) && final(ctx).vault == old(ctx).vault,
            None => {
                &&& r matches Ok(action)
                &&& action == TriggerRelease::request(old(ctx).vault@, old(ctx).hunter)
                &&& final(ctx).vault@ == TriggerRelease::applied(old(ctx).vault@)
            },
        },
        old(ctx).vault@.well_formed() ==> final(ctx).vault@.well_formed(),
{
    ctx.handler(now, vault_balance, min_retention)
}

/// Raises the vault's bounty by `amount`. See [`TopUpBounty::handler`].
pub fn top_up_bounty(ctx: &mut TopUpBounty, amount: u64) -> (r: Result<LedgerAction, VaultError>)
    ensures
        final(ctx).owner == old(ctx).owner,
        match TopUpBounty::refusal(old(ctx).vault@, old(ctx).owner, amount) {
            Some(e) => (r matches Err(err) && err == e) && final(ctx).vault == old(ctx).vault,
            None => {
                &&& r matches Ok(action)
                &&& action == TopUpBounty::request(amount)
                &&& final(ctx).vault@ == TopUpBounty::applied(old(ctx).vault@, amount)
            },
        },
        old(ctx).vault@.well_formed() ==> final(ctx).vault@.well_formed(),
{
    ctx.handler(amount)
}

/// Changes the settings that are given. See [`UpdateVault::handler`].
pub fn update_vault(
    ctx: &mut UpdateVault,
    new_recipient: Option<Pubkey>,
    new_time_interval: Option<i64>,
    new_name: Option<String>,
) -> (r: Result<(), VaultError>)
    ensures
        final(ctx).owner == old(ctx).owner,
        match UpdateVault::refusal(
            old(ctx).vault@,
            old(ctx).owner,
            new_time_interval,
            text_of(new_name),
        ) {
            Some(e) => r == Err::<(), VaultError>(e) && final(ctx).vault == old(ctx).vault,
            None => {
                &&& r is Ok
                &&& final(ctx).vault@ == UpdateVault::applied(
                    old(ctx).vault@,
                    new_recipient,
                    new_time_interval,
                    text_of(new_name),
                )
            },
        },
        old(ctx).vault@.well_formed() ==> final(ctx).vault@.well_formed(),
{
    ctx.handler(new_recipient, new_time_interval, new_name)
}

/// Locks `amount` of an asset into the vault. See [`LockTokens::handler`].
pub fn lock_tokens(ctx: &mut LockTokens, amount: u64) -> (r: Result<LedgerAction, VaultError>)
    ensures
        final(ctx).owner == old(ctx).owner,
        final(ctx).token_mint == old(ctx).token_mint,
        final(ctx).owner_token_account == old(ctx).owner_token_account,
        match LockTokens::refusal(
            old(ctx).vault@,
            old(ctx).owner,
            old(ctx).token_mint,
            old(ctx).owner_token_account,
            amount,
        ) {
            Some(e) => (r matches Err(err) && err == e) && final(ctx).vault == old(ctx).vault,
            None => {
                &&& r matches Ok(action)
                &&& action == LockTokens::request(old(ctx).token_mint, amount)
                &&& final(ctx).vault@ == LockTokens::applied(
                    old(ctx).vault@,
                    old(ctx).token_mint,
                    amount,
                )
            },
        },
        old(ctx).vault@.well_formed() ==> final(ctx).vault@.well_formed(),
{
    ctx.handler(amount)
}

/// Hands the locked native currency to the recipient. See
/// [`ClaimSol::handler`].
pub fn claim_sol(ctx: &mut ClaimSol) -> (r: Result<LedgerAction, VaultError>)
    ensures
        final(ctx).recipient == old(ctx).recipient,
        match ClaimSol::refusal(old(ctx).vault@, old(ctx).recipient) {
            Some(e) => (r matches Err(err) && err == e) && final(ctx).vault == old(ctx).vault,
            None => {
                &&& r matches Ok(action)
                &&& action == ClaimSol::request(old(ctx).vault@, old(ctx).recipient)
                &&& final(ctx).vault@ == ClaimSol::applied(old(ctx).vault@)
            },
        },
        old(ctx).vault@.well_formed() ==> final(ctx).vault@.well_formed(),
{
    ctx.handler()
}

/// Hands the locked asset to the recipient. See [`ClaimTokens::handler`].
pub fn claim_tokens(ctx: &mut ClaimTokens) -> (r: Result<LedgerAction, VaultError>)
    ensures
        final(ctx).recipient == old(ctx).recipient,
        final(ctx).token_mint == old(ctx).token_mint,
        match ClaimTokens::refusal(old(ctx).vault@, old(ctx).recipient, old(ctx).token_mint) {
            Some(e) => (r matches Err(err) && err == e) && final(ctx).vault == old(ctx).vault,
            None => {
                &&& r matches Ok(action)
                &&& action == ClaimTokens::request(
                    old(ctx).vault@,
                    old(ctx).recipient,
                    old(ctx).token_mint,
                )
                &&& final(ctx).vault@ == ClaimTokens::applied(old(ctx).vault@)
            },
        },
        old(ctx).vault@.well_formed() ==> final(ctx).vault@.well_formed(),
{
    ctx.handler()
}

/// Lets the owner destroy the vault. See [`CloseVault::handler`].
pub fn close_vault(ctx: &CloseVault) -> (r: Result<LedgerAction, VaultError>)
    ensures
        match CloseVault::refusal(ctx.vault@, ctx.owner) {
            Some(e) => r matches Err(err) && err == e,
            None => r matches Ok(action) && action == CloseVault::request(ctx.owner),
        },
{
    ctx.handler()
}

/// Lets the recipient destroy an expired or released vault. See
/// [`ClaimAndClose::handler`].
pub fn claim_and_close(ctx: &ClaimAndClose, now: i64) -> (r: Result<LedgerAction, VaultError>)
    ensures
        match ClaimAndClose::refusal(ctx.vault@, ctx.recipient, now) {
            Some(e) => r matches Err(err) && err == e,
            None => r matches Ok(action) && action == ClaimAndClose::request(ctx.recipient),
        },
{
    ctx.handler(now)
}

} // verus!
