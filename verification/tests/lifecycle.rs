use deadmans_switch::{
    claim_and_close, claim_sol, initialize_vault, ping, trigger_release, ClaimAndClose, ClaimSol,
    InitializeVault, LedgerAction, Ping, Pubkey, TriggerRelease, Vault, VaultError,
};

fn key(b: u8) -> Pubkey {
    Pubkey { bytes: [b; 32] }
}

fn sample(owner: Pubkey, recipient: Pubkey) -> Vault {
    Vault {
        owner,
        recipient,
        payload_reference: String::from("bafybeigdyrzt5sfp7udm7hu76uh7y26nf3efuylqabf3oclgtqy55fbzdi"),
        encrypted_key: String::from("c2VjcmV0LWtleQ=="),
        time_interval: 86400,
        last_check_in: 0,
        is_released: false,
        derivation_seed: 7,
        derivation_proof: 254,
        delegate: None,
        bounty: 1000,
        name: String::from("will"),
        locked_native_amount: 5000,
        asset_mint: None,
        locked_asset_amount: 0,
    }
}

#[test]
fn lifecycle_from_creation_to_close() {
    let owner = key(1);
    let recipient = key(2);
    let hunter = key(3);

    let (vault, action) = InitializeVault { owner }
        .handler(
            7,
            String::from("bafybeigdyrzt5sfp7udm7hu76uh7y26nf3efuylqabf3oclgtqy55fbzdi"),
            String::from("c2VjcmV0LWtleQ=="),
            recipient,
            86400,
            1000,
            String::from("will"),
            5000,
            254,
            0,
        )
        .unwrap();
    assert_eq!(action, LedgerAction::Deposit { amount: 6000 });
    assert_eq!(vault, sample(owner, recipient));

    let mut ping = Ping { vault, signer: owner };
    assert_eq!(ping.handler(50000), Ok(()));
    assert_eq!(ping.vault.last_check_in, 50000);

    let mut release = TriggerRelease { vault: ping.vault, hunter };
    assert_eq!(release.handler(90000, 10_000_000, 3_000_000), Err(VaultError::NotExpired));
    assert!(!release.vault.is_released);
    assert_eq!(release.vault.bounty, 1000);

    assert_eq!(
        release.handler(200000, 10_000_000, 3_000_000),
        Ok(LedgerAction::Payout { to: hunter, amount: 1000 })
    );
    assert!(release.vault.is_released);
    assert_eq!(release.vault.bounty, 0);

    let mut claim = ClaimSol { vault: release.vault, recipient };
    assert_eq!(claim.handler(), Ok(LedgerAction::Payout { to: recipient, amount: 5000 }));
    assert_eq!(claim.vault.locked_native_amount, 0);

    let close = ClaimAndClose { vault: claim.vault, recipient };
    assert_eq!(close.handler(200001), Ok(LedgerAction::Close { refund_to: recipient }));
}

#[test]
fn lifecycle_through_the_named_operations() {
    let owner = key(1);
    let recipient = key(2);
    let hunter = key(3);

    let (vault, action) = initialize_vault(
        &InitializeVault { owner },
        7,
        String::from("bafybeigdyrzt5sfp7udm7hu76uh7y26nf3efuylqabf3oclgtqy55fbzdi"),
        String::from("c2VjcmV0LWtleQ=="),
        recipient,
        86400,
        1000,
        String::from("will"),
        5000,
        254,
        0,
    )
    .unwrap();
    assert_eq!(action, LedgerAction::Deposit { amount: 6000 });

    let mut p = Ping { vault, signer: owner };
    assert_eq!(ping(&mut p, 50000), Ok(()));
    assert_eq!(p.vault.last_check_in, 50000);

    let mut t = TriggerRelease { vault: p.vault, hunter };
    assert_eq!(trigger_release(&mut t, 136400, 10_000_000, 0), Err(VaultError::NotExpired));
    assert_eq!(
        trigger_release(&mut t, 136401, 10_000_000, 0),
        Ok(LedgerAction::Payout { to: hunter, amount: 1000 })
    );

    let mut c = ClaimSol { vault: t.vault, recipient };
    assert_eq!(claim_sol(&mut c), Ok(LedgerAction::Payout { to: recipient, amount: 5000 }));
    assert_eq!(claim_sol(&mut c), Err(VaultError::NoLockedNative));

    let close = ClaimAndClose { vault: c.vault, recipient };
    assert_eq!(claim_and_close(&close, 136402), Ok(LedgerAction::Close { refund_to: recipient }));
}

#[test]
fn expiry_out_of_range_is_an_overflow() {
    let owner = key(1);
    let recipient = key(2);
    let mut vault = sample(owner, recipient);
    vault.last_check_in = i64::MAX - 10;
    vault.time_interval = 11;

    let mut release = TriggerRelease { vault: vault.clone(), hunter: key(3) };
    assert_eq!(release.handler(i64::MAX, 10_000_000, 0), Err(VaultError::Overflow));
    assert_eq!(release.vault, vault);

    let close = ClaimAndClose { vault: vault.clone(), recipient };
    assert_eq!(close.handler(i64::MAX), Err(VaultError::Overflow));

    let mut released = vault.clone();
    released.is_released = true;
    let close = ClaimAndClose { vault: released, recipient };
    assert_eq!(close.handler(0), Err(VaultError::Overflow));

    vault.time_interval = 10;
    assert_eq!(vault.expiry(), Some(i64::MAX));
    let mut release = TriggerRelease { vault, hunter: key(3) };
    assert_eq!(release.handler(i64::MAX, 10_000_000, 0), Err(VaultError::NotExpired));
}

#[test]
fn expiry_below_the_range_is_an_overflow() {
    let mut vault = sample(key(1), key(2));
    vault.last_check_in = i64::MIN;
    vault.time_interval = -1;
    assert_eq!(vault.expiry(), None);
    let mut release = TriggerRelease { vault, hunter: key(3) };
    assert_eq!(release.handler(0, 10_000_000, 0), Err(VaultError::Overflow));
}

#[test]
fn release_flag_changes_once_over_a_sequence() {
    let owner = key(1);
    let recipient = key(2);
    let hunter = key(3);
    let mut vault = sample(owner, recipient);
    let mut seen = vec![vault.is_released];

    let mut p = Ping { vault, signer: owner };
    let _ = p.handler(10);
    vault = p.vault;
    seen.push(vault.is_released);

    let mut t = TriggerRelease { vault, hunter };
    let _ = t.handler(86410, 1_000_000, 0);
    vault = t.vault;
    seen.push(vault.is_released);

    let mut t = TriggerRelease { vault, hunter };
    let _ = t.handler(86411, 1_000_000, 0);
    vault = t.vault;
    seen.push(vault.is_released);

    let mut p = Ping { vault, signer: owner };
    assert_eq!(p.handler(90000), Err(VaultError::AlreadyReleased));
    vault = p.vault;
    seen.push(vault.is_released);

    let mut c = ClaimSol { vault, recipient };
    let _ = c.handler();
    vault = c.vault;
    seen.push(vault.is_released);

    assert_eq!(seen, vec![false, false, false, true, true, true]);
}
