//! The life of one vault record as a sequence of calls, and the laws that hold
//! of every such sequence.
//!
//! A [`Call`] is an operation together with its caller and arguments. Its
//! meaning is that of the operation's handler: `refusal`, `applied` and
//! `request` below are the spec functions that the handlers' contracts are
//! stated with.
//!
//! A record lives from its creation to an accepted close. The definitions here
//! let a sequence go on behind a close, where on the ledger the record is gone;
//! so the laws hold of every life of a record, and of more.

use crate::errors::{ErrorKind, VaultError};
use crate::instructions::{
    ClaimAndClose, ClaimSol, ClaimTokens, CloseVault, InitializeVault, LockTokens, Ping,
    SetDelegate, TokenAccount, TopUpBounty, TriggerRelease, UpdateVault,
};
use crate::ledger::LedgerAction;
use crate::constants::{MAX_ENCRYPTED_KEY_LEN, MAX_PAYLOAD_REFERENCE_LEN, MAX_VAULT_NAME_LEN};
use crate::state::{authorized, stored_len, Pubkey, Role, VaultView};
use vstd::prelude::*;

verus! {

/// An operation on an existing record, with its caller and its arguments.
pub enum Call {
    /// A ping by `signer` at `now`.
    Ping { signer: Pubkey, now: i64 },
    /// An appointment of `new_delegate`, asked for by `owner`.
    SetDelegate { owner: Pubkey, new_delegate: Option<Pubkey> },
    /// A change of the settings that are given, asked for by `owner`.
    UpdateVault {
        owner: Pubkey,
        new_recipient: Option<Pubkey>,
        new_time_interval: Option<i64>,
        new_name: Option<Seq<char>>,
    },
    /// A top-up of the bounty by `amount`, asked for by `owner`.
    TopUpBounty { owner: Pubkey, amount: u64 },
    /// A lock of `amount` of `token_mint` out of `source`, asked for by
    /// `owner`.
    LockTokens { owner: Pubkey, token_mint: Pubkey, source: TokenAccount, amount: u64 },
    /// A release asked for by `hunter` at `now`, while the vault's account
    /// holds `vault_balance` and has to keep `min_retention`.
    TriggerRelease { hunter: Pubkey, now: i64, vault_balance: u64, min_retention: u64 },
    /// A claim of the locked native currency by `recipient`.
    ClaimSol { recipient: Pubkey },
    /// A claim of the locked asset by `recipient`, who presents `token_mint`.
    ClaimTokens { recipient: Pubkey, token_mint: Pubkey },
    /// A close asked for by `owner`.
    CloseVault { owner: Pubkey },
    /// A close asked for by `recipient` at `now`.
    ClaimAndClose { recipient: Pubkey, now: i64 },
}

impl Call {
    /// The identity that makes the call.
    pub open spec fn caller(self) -> Pubkey {
        match self {
            Call::Ping { signer, .. } => signer,
            Call::SetDelegate { owner, .. } => owner,
            Call::UpdateVault { owner, .. } => owner,
            Call::TopUpBounty { owner, .. } => owner,
            Call::LockTokens { owner, .. } => owner,
            Call::TriggerRelease { hunter, .. } => hunter,
            Call::ClaimSol { recipient } => recipient,
            Call::ClaimTokens { recipient, .. } => recipient,
            Call::CloseVault { owner } => owner,
            Call::ClaimAndClose { recipient, .. } => recipient,
        }
    }

    /// The role that the operation is reserved for.
    pub open spec fn role(self) -> Role {
        match self {
            Call::Ping { .. } => Role::OwnerOrDelegate,
            Call::SetDelegate { .. } => Role::Owner,
            Call::UpdateVault { .. } => Role::Owner,
            Call::TopUpBounty { .. } => Role::Owner,
            Call::LockTokens { .. } => Role::Owner,
            Call::TriggerRelease { .. } => Role::Anyone,
            Call::ClaimSol { .. } => Role::Recipient,
            Call::ClaimTokens { .. } => Role::Recipient,
            Call::CloseVault { .. } => Role::Owner,
            Call::ClaimAndClose { .. } => Role::Recipient,
        }
    }

    /// The error the call is refused with on `vault`, if any.
    pub open spec fn refusal(self, vault: VaultView) -> Option<VaultError> {
        match self {
            Call::Ping { signer, .. } => Ping::refusal(vault, signer),
            Call::SetDelegate { owner, .. } => SetDelegate::refusal(vault, owner),
            Call::UpdateVault { owner, new_time_interval, new_name, .. } => UpdateVault::refusal(
                vault,
                owner,
                new_time_interval,
                new_name,
            ),
            Call::TopUpBounty { owner, amount } => TopUpBounty::refusal(vault, owner, amount),
            Call::LockTokens { owner, token_mint, source, amount } => LockTokens::refusal(
                vault,
                owner,
                token_mint,
                source,
                amount,
            ),
            Call::TriggerRelease { now, vault_balance, min_retention, .. } => {
                TriggerRelease::refusal(vault, now, vault_balance, min_retention)
            },
            Call::ClaimSol { recipient } => ClaimSol::refusal(vault, recipient),
            Call::ClaimTokens { recipient, token_mint } => ClaimTokens::refusal(
                vault,
                recipient,
                token_mint,
            ),
            Call::CloseVault { owner } => CloseVault::refusal(vault, owner),
            Call::ClaimAndClose { recipient, now } => ClaimAndClose::refusal(vault, recipient, now),
        }
    }

    /// The record that the call leaves behind where it is accepted. The two
    /// closing calls leave the record as it is: the ledger destroys it.
    pub open spec fn applied(self, vault: VaultView) -> VaultView {
        match self {
            Call::Ping { now, .. } => Ping::applied(vault, now),
            Call::SetDelegate { new_delegate, .. } => SetDelegate::applied(vault, new_delegate),
            Call::UpdateVault { new_recipient, new_time_interval, new_name, .. } => {
                UpdateVault::applied(vault, new_recipient, new_time_interval, new_name)
            },
            Call::TopUpBounty { amount, .. } => TopUpBounty::applied(vault, amount),
            Call::LockTokens { token_mint, amount, .. } => LockTokens::applied(
                vault,
                token_mint,
                amount,
            ),
            Call::TriggerRelease { .. } => TriggerRelease::applied(vault),
            Call::ClaimSol { .. } => ClaimSol::applied(vault),
            Call::ClaimTokens { .. } => ClaimTokens::applied(vault),
            Call::CloseVault { .. } => vault,
            Call::ClaimAndClose { .. } => vault,
        }
    }

    /// What the call asks of the ledger where it is accepted.
    pub open spec fn request(self, vault: VaultView) -> LedgerAction {
        match self {
            Call::Ping { .. } => LedgerAction::Nothing,
            Call::SetDelegate { .. } => LedgerAction::Nothing,
            Call::UpdateVault { .. } => LedgerAction::Nothing,
            Call::TopUpBounty { amount, .. } => TopUpBounty::request(amount),
            Call::LockTokens { token_mint, amount, .. } => LockTokens::request(token_mint, amount),
            Call::TriggerRelease { hunter, .. } => TriggerRelease::request(vault, hunter),
            Call::ClaimSol { recipient } => ClaimSol::request(vault, recipient),
            Call::ClaimTokens { recipient, token_mint } => ClaimTokens::request(
                vault,
                recipient,
                token_mint,
            ),
            Call::CloseVault { owner } => CloseVault::request(owner),
            Call::ClaimAndClose { recipient, .. } => ClaimAndClose::request(recipient),
        }
    }
}

/// The record after `call`: changed as the call says where it is accepted, and
/// untouched where it is refused.
pub open spec fn step(vault: VaultView, call: Call) -> VaultView {
    if call.refusal(vault) is None {
        call.applied(vault)
    } else {
        vault
    }
}

/// What the ledger is asked to do by `call`: nothing where it is refused.
pub open spec fn asked(vault: VaultView, call: Call) -> LedgerAction {
    if call.refusal(vault) is None {
        call.request(vault)
    } else {
        LedgerAction::Nothing
    }
}

/// The record after the calls in `calls`, made in order on `vault`.
pub open spec fn run(vault: VaultView, calls: Seq<Call>) -> VaultView
    decreases calls.len(),
{
    if calls.len() == 0 {
        vault
    } else {
        step(run(vault, calls.drop_last()), calls.last())
    }
}

/// The native currency paid into the vault's custody, less what was paid out
/// of it, over the calls in `calls` made in order on `vault`.
pub open spec fn net_native_inflow(vault: VaultView, calls: Seq<Call>) -> int
    decreases calls.len(),
{
    if calls.len() == 0 {
        0
    } else {
        let before = run(vault, calls.drop_last());
        let action = asked(before, calls.last());
        net_native_inflow(vault, calls.drop_last()) + action.native_in() - action.native_out()
    }
}

/// No call leaves a well-formed record ill-formed.
pub proof fn lemma_step_keeps_well_formed(vault: VaultView, call: Call)
    requires
        vault.well_formed(),
    ensures
        step(vault, call).well_formed(),
{
}

/// No sequence of calls leaves a well-formed record ill-formed.
pub proof fn lemma_run_keeps_well_formed(vault: VaultView, calls: Seq<Call>)
    requires
        vault.well_formed(),
    ensures
        run(vault, calls).well_formed(),
    decreases calls.len(),
{
    if calls.len() > 0 {
        lemma_run_keeps_well_formed(vault, calls.drop_last());
        lemma_step_keeps_well_formed(run(vault, calls.drop_last()), calls.last());
    }
}

/// The last check-in changes by nothing but an accepted ping, made by the
/// owner or the delegate.
pub proof fn lemma_only_ping_renews(vault: VaultView, call: Call)
    requires
        step(vault, call).last_check_in != vault.last_check_in,
    ensures
        call is Ping,
        call.refusal(vault) is None,
        authorized(Role::OwnerOrDelegate, call.caller(), vault),
        !vault.is_released,
{
}

/// The recipient, the liveness window, the name, the delegate and the asset
/// are the owner's to set, and the bounty the owner's to raise, and only while
/// the vault is active.
pub proof fn lemma_only_the_owner_configures(vault: VaultView, call: Call)
    requires
        ({
            let after = step(vault, call);
            ||| after.recipient != vault.recipient
            ||| after.time_interval != vault.time_interval
            ||| after.name != vault.name
            ||| after.delegate != vault.delegate
            ||| after.bounty > vault.bounty
            ||| after.asset_mint != vault.asset_mint
        }),
    ensures
        call.role() == Role::Owner,
        call.caller() == vault.owner,
        !vault.is_released,
{
}

/// A released record changes by nothing but the two claims, and each of them
/// only empties its own balance.
pub proof fn lemma_released_record_changes_by_claims_only(vault: VaultView, call: Call)
    requires
        vault.is_released,
    ensures
        ({
            let after = step(vault, call);
            &&& after == VaultView {
                locked_native_amount: after.locked_native_amount,
                locked_asset_amount: after.locked_asset_amount,
                ..vault
            }
            &&& after.locked_native_amount != vault.locked_native_amount ==> call is ClaimSol
                && after.locked_native_amount == 0
            &&& after.locked_asset_amount != vault.locked_asset_amount ==> call is ClaimTokens
                && after.locked_asset_amount == 0
        }),
{
}

/// The owner, the payload reference, the encrypted key and the values that
/// derive the vault's address never change.
pub proof fn lemma_run_keeps_identity(vault: VaultView, calls: Seq<Call>)
    ensures
        run(vault, calls).owner == vault.owner,
        run(vault, calls).payload_reference == vault.payload_reference,
        run(vault, calls).encrypted_key == vault.encrypted_key,
        run(vault, calls).derivation_seed == vault.derivation_seed,
        run(vault, calls).derivation_proof == vault.derivation_proof,
    decreases calls.len(),
{
    if calls.len() > 0 {
        lemma_run_keeps_identity(vault, calls.drop_last());
    }
}

/// The release flag changes only from unset to set, and only by an accepted
/// release.
pub proof fn lemma_only_release_sets_the_flag(vault: VaultView, call: Call)
    requires
        step(vault, call).is_released != vault.is_released,
    ensures
        !vault.is_released,
        step(vault, call).is_released,
        call is TriggerRelease,
        call.refusal(vault) is None,
{
}

/// A released vault stays released, whatever is called on it.
pub proof fn lemma_release_is_permanent(vault: VaultView, calls: Seq<Call>)
    requires
        vault.is_released,
    ensures
        run(vault, calls).is_released,
    decreases calls.len(),
{
    if calls.len() > 0 {
        lemma_release_is_permanent(vault, calls.drop_last());
        let before = run(vault, calls.drop_last());
        if !step(before, calls.last()).is_released {
            lemma_only_release_sets_the_flag(before, calls.last());
        }
    }
}

/// The release flag after the first `n` calls is kept by every longer prefix.
pub proof fn lemma_released_prefix(vault: VaultView, calls: Seq<Call>, n: int, m: int)
    requires
        0 <= n <= m <= calls.len(),
        run(vault, calls.take(n)).is_released,
    ensures
        run(vault, calls.take(m)).is_released,
    decreases m - n,
{
    if n < m {
        lemma_released_prefix(vault, calls, n, m - 1);
        assert(calls.take(m).drop_last() == calls.take(m - 1));
        let before = run(vault, calls.take(m - 1));
        if !step(before, calls.take(m).last()).is_released {
            lemma_only_release_sets_the_flag(before, calls.take(m).last());
        }
    }
}

/// Along any sequence of calls the release flag changes at most once: if the
/// call at `i` changes it, no later call does.
pub proof fn lemma_released_changes_at_most_once(
    vault: VaultView,
    calls: Seq<Call>,
    i: int,
    j: int,
)
    requires
        0 <= i < j < calls.len(),
        run(vault, calls.take(i + 1)).is_released != run(vault, calls.take(i)).is_released,
    ensures
        run(vault, calls.take(j + 1)).is_released == run(vault, calls.take(j)).is_released,
        calls[i] is TriggerRelease,
{
    assert(calls.take(i + 1).drop_last() == calls.take(i));
    assert(calls.take(i + 1).last() == calls[i]);
    lemma_only_release_sets_the_flag(run(vault, calls.take(i)), calls[i]);
    lemma_released_prefix(vault, calls, i + 1, j);
    lemma_released_prefix(vault, calls, i + 1, j + 1);
}

/// A release asked for no later than the expiry of an active vault is refused
/// as not expired, leaves the record as it is and moves nothing.
pub proof fn lemma_release_before_expiry_is_refused(
    vault: VaultView,
    hunter: Pubkey,
    now: i64,
    vault_balance: u64,
    min_retention: u64,
)
    requires
        !vault.is_released,
        !vault.expiry_overflows(),
        now <= vault.expiry(),
    ensures
        ({
            let call = Call::TriggerRelease { hunter, now, vault_balance, min_retention };
            &&& call.refusal(vault) == Some(VaultError::NotExpired)
            &&& step(vault, call) == vault
            &&& asked(vault, call) == LedgerAction::Nothing
        }),
{
}

/// A release asked for after the expiry of an active vault whose balance covers
/// the bounty is accepted: exactly the bounty goes to the caller, or nothing
/// where there is none; the bounty is then zero and the vault released; and
/// whoever asks again, whenever, is refused as already released.
pub proof fn lemma_release_after_expiry(
    vault: VaultView,
    hunter: Pubkey,
    now: i64,
    vault_balance: u64,
    min_retention: u64,
    again: Call,
)
    requires
        !vault.is_released,
        !vault.expiry_overflows(),
        now > vault.expiry(),
        !TriggerRelease::underfunded(vault, vault_balance, min_retention),
        again is TriggerRelease,
    ensures
        ({
            let call = Call::TriggerRelease { hunter, now, vault_balance, min_retention };
            let after = step(vault, call);
            &&& call.refusal(vault) is None
            &&& asked(vault, call) == if vault.bounty > 0 {
                LedgerAction::Payout { to: hunter, amount: vault.bounty }
            } else {
                LedgerAction::Nothing
            }
            &&& after == VaultView { bounty: 0, is_released: true, ..vault }
            &&& again.refusal(after) == Some(VaultError::AlreadyReleased)
        }),
{
}

/// A bounty that is paid out is covered: it leaves at least the minimum
/// retention in the vault's account.
pub proof fn lemma_bounty_is_covered(
    vault: VaultView,
    hunter: Pubkey,
    now: i64,
    vault_balance: u64,
    min_retention: u64,
)
    requires
        TriggerRelease::refusal(vault, now, vault_balance, min_retention) is None,
    ensures
        TriggerRelease::request(vault, hunter).native_out() + min_retention <= vault_balance
            || TriggerRelease::request(vault, hunter) == LedgerAction::Nothing,
{
}

/// An accepted claim of the native currency pays out all that was locked and
/// leaves nothing locked; the same caller asking again is refused because
/// nothing is locked.
pub proof fn lemma_native_claim_is_single_shot(vault: VaultView, recipient: Pubkey)
    requires
        ClaimSol::refusal(vault, recipient) is None,
    ensures
        ({
            let call = Call::ClaimSol { recipient };
            let after = step(vault, call);
            &&& asked(vault, call) == LedgerAction::Payout {
                to: recipient,
                amount: vault.locked_native_amount,
            }
            &&& after == VaultView { locked_native_amount: 0, ..vault }
            &&& call.refusal(after) == Some(VaultError::NoLockedNative)
        }),
{
}

/// An accepted claim of the asset pays out all that was held and leaves a zero
/// balance; the same caller asking again is refused as already claimed.
pub proof fn lemma_asset_claim_is_single_shot(
    vault: VaultView,
    recipient: Pubkey,
    token_mint: Pubkey,
)
    requires
        ClaimTokens::refusal(vault, recipient, token_mint) is None,
    ensures
        ({
            let call = Call::ClaimTokens { recipient, token_mint };
            let after = step(vault, call);
            &&& asked(vault, call) == LedgerAction::PayoutAsset {
                mint: token_mint,
                to: recipient,
                amount: vault.locked_asset_amount,
            }
            &&& after == VaultView { locked_asset_amount: 0, ..vault }
            &&& call.refusal(after) == Some(VaultError::AlreadyClaimed)
        }),
{
}

/// The owner of an active vault that already names an asset cannot lock
/// another: the call is refused as already locked and changes nothing.
pub proof fn lemma_second_lock_is_refused(
    vault: VaultView,
    owner: Pubkey,
    token_mint: Pubkey,
    source: TokenAccount,
    amount: u64,
)
    requires
        authorized(Role::Owner, owner, vault),
        !vault.is_released,
        vault.asset_mint is Some,
    ensures
        ({
            let call = Call::LockTokens { owner, token_mint, source, amount };
            &&& call.refusal(vault) == Some(VaultError::AlreadyLocked)
            &&& step(vault, call) == vault
            &&& asked(vault, call) == LedgerAction::Nothing
        }),
{
}

/// Once an asset is named it stays named, and no call names another.
pub proof fn lemma_asset_is_locked_once(vault: VaultView, calls: Seq<Call>)
    requires
        vault.asset_mint is Some,
    ensures
        run(vault, calls).asset_mint == vault.asset_mint,
    decreases calls.len(),
{
    if calls.len() > 0 {
        lemma_asset_is_locked_once(vault, calls.drop_last());
    }
}

/// A call by an identity that does not play the operation's role is refused
/// and changes nothing. The error is of the authorization family, except that a
/// ping on a released vault is refused as already released whoever calls.
pub proof fn lemma_role_is_enforced(vault: VaultView, call: Call)
    requires
        !authorized(call.role(), call.caller(), vault),
    ensures
        call.refusal(vault) is Some,
        step(vault, call) == vault,
        asked(vault, call) == LedgerAction::Nothing,
        !(call is Ping && vault.is_released) ==> call.refusal(vault)->0.spec_kind()
            == ErrorKind::Authorization,
{
}

/// A delegate of an active vault can ping.
pub proof fn lemma_delegate_can_ping(vault: VaultView, delegate: Pubkey, now: i64)
    requires
        vault.delegate == Some(delegate),
        !vault.is_released,
    ensures
        ({
            let call = Call::Ping { signer: delegate, now };
            &&& call.refusal(vault) is None
            &&& step(vault, call) == VaultView { last_check_in: now, ..vault }
            &&& asked(vault, call) == LedgerAction::Nothing
        }),
{
}

/// A delegate who is not also the owner is refused, as unauthorized, by every
/// operation that is the owner's.
pub proof fn lemma_delegate_is_not_owner(vault: VaultView, delegate: Pubkey, call: Call)
    requires
        vault.delegate == Some(delegate),
        delegate != vault.owner,
        call.role() == Role::Owner,
        call.caller() == delegate,
    ensures
        call.refusal(vault) == Some(VaultError::Unauthorized),
        step(vault, call) == vault,
{
}

/// A delegate who is not also the recipient is refused by every operation that
/// is the recipient's, with an error of the authorization family: the two
/// claims say that the caller is not the recipient, the close that the caller
/// is unauthorized.
pub proof fn lemma_delegate_is_not_recipient(vault: VaultView, delegate: Pubkey, call: Call)
    requires
        vault.delegate == Some(delegate),
        delegate != vault.recipient,
        call.role() == Role::Recipient,
        call.caller() == delegate,
    ensures
        call.refusal(vault) == Some(
            if call is ClaimAndClose {
                VaultError::Unauthorized
            } else {
                VaultError::NotRecipient
            },
        ),
        call.refusal(vault)->0.spec_kind() == ErrorKind::Authorization,
        step(vault, call) == vault,
{
}

/// Who asks for a release plays no part in whether it is granted: a release
/// never fails for want of authority.
pub proof fn lemma_anyone_may_release(
    vault: VaultView,
    hunter: Pubkey,
    now: i64,
    vault_balance: u64,
    min_retention: u64,
)
    ensures
        authorized(Role::Anyone, hunter, vault),
        ({
            let call = Call::TriggerRelease { hunter, now, vault_balance, min_retention };
            let refusal = call.refusal(vault);
            refusal is Some ==> refusal->0.spec_kind() != ErrorKind::Authorization
        }),
{
}

/// Where the last check-in and the liveness window do not add up within the
/// range of a timestamp, a release of an active vault and a close by the
/// recipient are refused with an overflow, whatever the time.
pub proof fn lemma_expiry_out_of_range_is_refused(
    vault: VaultView,
    hunter: Pubkey,
    now: i64,
    vault_balance: u64,
    min_retention: u64,
)
    requires
        vault.expiry_overflows(),
    ensures
        ({
            let release = Call::TriggerRelease { hunter, now, vault_balance, min_retention };
            let close = Call::ClaimAndClose { recipient: vault.recipient, now };
            &&& !vault.is_released ==> release.refusal(vault) == Some(VaultError::Overflow)
            &&& close.refusal(vault) == Some(VaultError::Overflow)
        }),
{
}

/// Each call changes what the vault holds in custody by exactly what it asks
/// the ledger to pay in, less what it asks the ledger to pay out.
pub proof fn lemma_step_accounts_for_custody(vault: VaultView, call: Call)
    ensures
        step(vault, call).custody() == vault.custody() + asked(vault, call).native_in() - asked(
            vault,
            call,
        ).native_out(),
{
}

/// Over any sequence of calls, what the vault holds in custody is what it held
/// at the start plus the net of what the ledger was asked to pay in and out.
pub proof fn lemma_run_accounts_for_custody(vault: VaultView, calls: Seq<Call>)
    ensures
        run(vault, calls).custody() == vault.custody() + net_native_inflow(vault, calls),
    decreases calls.len(),
{
    if calls.len() > 0 {
        lemma_run_accounts_for_custody(vault, calls.drop_last());
        lemma_step_accounts_for_custody(run(vault, calls.drop_last()), calls.last());
    }
}

/// Creation is refused whenever a bounded field exceeds its maximum, whatever
/// the other arguments are; an accepted creation leaves every bounded field
/// within its maximum.
pub proof fn lemma_creation_respects_the_maxima(
    payload_reference: Seq<char>,
    encrypted_key: Seq<char>,
    time_interval: i64,
    bounty: u64,
    name: Seq<char>,
    locked_native_amount: u64,
)
    ensures
        ({
            let refusal = InitializeVault::refusal(
                payload_reference,
                encrypted_key,
                time_interval,
                bounty,
                name,
                locked_native_amount,
            );
            &&& stored_len(payload_reference) > MAX_PAYLOAD_REFERENCE_LEN ==> refusal is Some
            &&& stored_len(encrypted_key) > MAX_ENCRYPTED_KEY_LEN ==> refusal is Some
            &&& stored_len(name) > MAX_VAULT_NAME_LEN ==> refusal is Some
            &&& refusal is None ==> {
                &&& stored_len(payload_reference) <= MAX_PAYLOAD_REFERENCE_LEN
                &&& stored_len(encrypted_key) <= MAX_ENCRYPTED_KEY_LEN
                &&& stored_len(name) <= MAX_VAULT_NAME_LEN
            }
        }),
{
}

/// A new vault is well formed, active and without delegate or asset, and holds
/// in custody exactly what its owner is asked to pay in.
pub proof fn lemma_creation_is_funded(
    owner: Pubkey,
    seed: u64,
    payload_reference: Seq<char>,
    encrypted_key: Seq<char>,
    recipient: Pubkey,
    time_interval: i64,
    bounty: u64,
    name: Seq<char>,
    locked_native_amount: u64,
    bump: u8,
    now: i64,
)
    requires
        InitializeVault::refusal(
            payload_reference,
            encrypted_key,
            time_interval,
            bounty,
            name,
            locked_native_amount,
        ) is None,
    ensures
        ({
            let vault = InitializeVault::created(
                owner,
                seed,
                payload_reference,
                encrypted_key,
                recipient,
                time_interval,
                bounty,
                name,
                locked_native_amount,
                bump,
                now,
            );
            &&& vault.well_formed()
            &&& !vault.is_released
            &&& vault.custody() == InitializeVault::request(
                bounty,
                locked_native_amount,
            ).native_in()
        }),
{
}

} // verus!
