use deadmans_switch::{authorize, ErrorKind, Pubkey, Role, Vault, VaultError};

fn key(b: u8) -> Pubkey {
    Pubkey { bytes: [b; 32] }
}

fn vault(delegate: Option<Pubkey>) -> Vault {
    Vault {
        owner: key(1),
        recipient: key(2),
        payload_reference: String::new(),
        encrypted_key: String::new(),
        time_interval: 1,
        last_check_in: 0,
        is_released: false,
        derivation_seed: 0,
        derivation_proof: 0,
        delegate,
        bounty: 0,
        name: String::new(),
        locked_native_amount: 0,
        asset_mint: None,
        locked_asset_amount: 0,
    }
}

#[test]
fn identities_are_compared_by_all_their_bytes() {
    let a = key(9);
    let mut b = key(9);
    assert!(a == b);
    b.bytes[31] = 8;
    assert!(a != b);
    b.bytes[31] = 9;
    b.bytes[0] = 0;
    assert!(a != b);
}

#[test]
fn owner_role() {
    let v = vault(Some(key(3)));
    assert!(authorize(Role::Owner, &key(1), &v));
    assert!(!authorize(Role::Owner, &key(2), &v));
    assert!(!authorize(Role::Owner, &key(3), &v));
}

#[test]
fn owner_or_delegate_role() {
    let v = vault(Some(key(3)));
    assert!(authorize(Role::OwnerOrDelegate, &key(1), &v));
    assert!(authorize(Role::OwnerOrDelegate, &key(3), &v));
    assert!(!authorize(Role::OwnerOrDelegate, &key(2), &v));
    let v = vault(None);
    assert!(authorize(Role::OwnerOrDelegate, &key(1), &v));
    assert!(!authorize(Role::OwnerOrDelegate, &key(3), &v));
}

#[test]
fn recipient_role() {
    let v = vault(Some(key(3)));
    assert!(authorize(Role::Recipient, &key(2), &v));
    assert!(!authorize(Role::Recipient, &key(1), &v));
    assert!(!authorize(Role::Recipient, &key(3), &v));
}

#[test]
fn anyone_role() {
    let v = vault(None);
    for b in 0..5 {
        assert!(authorize(Role::Anyone, &key(b), &v));
    }
}

#[test]
fn errors_fall_into_their_families() {
    let families = [
        (VaultError::Unauthorized, ErrorKind::Authorization),
        (VaultError::NotRecipient, ErrorKind::Authorization),
        (VaultError::NotExpired, ErrorKind::Timing),
        (VaultError::AlreadyReleased, ErrorKind::Timing),
        (VaultError::NotReleased, ErrorKind::Timing),
        (VaultError::PayloadReferenceTooLong, ErrorKind::Validation),
        (VaultError::EncryptedKeyTooLong, ErrorKind::Validation),
        (VaultError::NameTooLong, ErrorKind::Validation),
        (VaultError::InvalidTimeInterval, ErrorKind::Validation),
        (VaultError::InvalidAmount, ErrorKind::Validation),
        (VaultError::InvalidMint, ErrorKind::Validation),
        (VaultError::Overflow, ErrorKind::Arithmetic),
        (VaultError::AlreadyLocked, ErrorKind::State),
        (VaultError::NoLockedNative, ErrorKind::State),
        (VaultError::NoAssetLocked, ErrorKind::State),
        (VaultError::AlreadyClaimed, ErrorKind::State),
        (VaultError::InsufficientBalance, ErrorKind::Resource),
    ];
    for (error, family) in families {
        assert_eq!(error.kind(), family);
    }
}
