use deadmans_switch::{InitializeVault, LedgerAction, Pubkey, VaultError};

fn key(b: u8) -> Pubkey {
    Pubkey { bytes: [b; 32] }
}

fn create(
    payload_reference: &str,
    encrypted_key: &str,
    time_interval: i64,
    bounty: u64,
    name: &str,
    locked: u64,
) -> Result<(deadmans_switch::Vault, LedgerAction), VaultError> {
    InitializeVault { owner: key(1) }.handler(
        42,
        String::from(payload_reference),
        String::from(encrypted_key),
        key(2),
        time_interval,
        bounty,
        String::from(name),
        locked,
        255,
        1_700_000_000,
    )
}

#[test]
fn creation_sets_every_field() {
    let (vault, action) = create("cid", "key", 3600, 10, "n", 20).unwrap();
    assert_eq!(vault.owner, key(1));
    assert_eq!(vault.recipient, key(2));
    assert_eq!(vault.payload_reference, "cid");
    assert_eq!(vault.encrypted_key, "key");
    assert_eq!(vault.time_interval, 3600);
    assert_eq!(vault.last_check_in, 1_700_000_000);
    assert!(!vault.is_released);
    assert_eq!(vault.derivation_seed, 42);
    assert_eq!(vault.derivation_proof, 255);
    assert_eq!(vault.delegate, None);
    assert_eq!(vault.bounty, 10);
    assert_eq!(vault.name, "n");
    assert_eq!(vault.locked_native_amount, 20);
    assert_eq!(vault.asset_mint, None);
    assert_eq!(vault.locked_asset_amount, 0);
    assert_eq!(action, LedgerAction::Deposit { amount: 30 });
}

#[test]
fn creation_without_funds_moves_nothing() {
    let (vault, action) = create("cid", "key", 1, 0, "", 0).unwrap();
    assert_eq!(action, LedgerAction::Nothing);
    assert_eq!(vault.bounty, 0);
    assert_eq!(vault.locked_native_amount, 0);
}

#[test]
fn creation_accepts_fields_at_their_maxima() {
    let (vault, _) =
        create(&"a".repeat(64), &"b".repeat(128), 1, 0, &"c".repeat(32), 0).unwrap();
    assert_eq!(vault.payload_reference.len(), 64);
    assert_eq!(vault.encrypted_key.len(), 128);
    assert_eq!(vault.name.len(), 32);
}

#[test]
fn creation_refuses_a_long_payload_reference() {
    assert_eq!(
        create(&"a".repeat(65), "key", 3600, 0, "n", 0).unwrap_err(),
        VaultError::PayloadReferenceTooLong
    );
}

#[test]
fn creation_refuses_a_long_encrypted_key() {
    assert_eq!(
        create("cid", &"b".repeat(129), 3600, 0, "n", 0).unwrap_err(),
        VaultError::EncryptedKeyTooLong
    );
}

#[test]
fn creation_refuses_a_long_name() {
    assert_eq!(
        create("cid", "key", 3600, 0, &"c".repeat(33), 0).unwrap_err(),
        VaultError::NameTooLong
    );
}

#[test]
fn creation_counts_bytes_not_characters() {
    // Sixteen two-byte characters fill the name exactly; one more does not fit.
    assert!(create("cid", "key", 3600, 0, &"é".repeat(16), 0).is_ok());
    assert_eq!(
        create("cid", "key", 3600, 0, &"é".repeat(17), 0).unwrap_err(),
        VaultError::NameTooLong
    );
}

#[test]
fn creation_refuses_a_window_that_is_not_positive() {
    assert_eq!(
        create("cid", "key", 0, 0, "n", 0).unwrap_err(),
        VaultError::InvalidTimeInterval
    );
    assert_eq!(
        create("cid", "key", -5, 0, "n", 0).unwrap_err(),
        VaultError::InvalidTimeInterval
    );
}

#[test]
fn creation_refuses_funds_that_do_not_add_up() {
    assert_eq!(
        create("cid", "key", 3600, u64::MAX, "n", 1).unwrap_err(),
        VaultError::Overflow
    );
    let (_, action) = create("cid", "key", 3600, u64::MAX - 1, "n", 1).unwrap();
    assert_eq!(action, LedgerAction::Deposit { amount: u64::MAX });
}

#[test]
fn creation_reports_the_first_failing_check() {
    assert_eq!(
        create(&"a".repeat(65), &"b".repeat(129), 0, u64::MAX, &"c".repeat(33), 1).unwrap_err(),
        VaultError::PayloadReferenceTooLong
    );
    assert_eq!(
        create("cid", &"b".repeat(129), 0, u64::MAX, &"c".repeat(33), 1).unwrap_err(),
        VaultError::EncryptedKeyTooLong
    );
    assert_eq!(
        create("cid", "key", 0, u64::MAX, &"c".repeat(33), 1).unwrap_err(),
        VaultError::InvalidTimeInterval
    );
    assert_eq!(
        create("cid", "key", 1, u64::MAX, &"c".repeat(33), 1).unwrap_err(),
        VaultError::NameTooLong
    );
}
