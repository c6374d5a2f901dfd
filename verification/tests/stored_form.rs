use deadmans_switch::record::SPACE;
use deadmans_switch::{Pubkey, Vault, VAULT_SEED};

fn key(b: u8) -> Pubkey {
    Pubkey { bytes: [b; 32] }
}

fn sample() -> Vault {
    Vault {
        owner: key(1),
        recipient: key(2),
        payload_reference: String::from("Qm"),
        encrypted_key: String::from("k"),
        time_interval: 86400,
        last_check_in: -5,
        is_released: false,
        derivation_seed: 7,
        derivation_proof: 254,
        delegate: Some(key(9)),
        bounty: 1000,
        name: String::from("wïll"),
        locked_native_amount: 5000,
        asset_mint: None,
        locked_asset_amount: 0,
    }
}

fn largest() -> Vault {
    Vault {
        owner: key(0xaa),
        recipient: key(0xbb),
        payload_reference: "p".repeat(64),
        encrypted_key: "k".repeat(128),
        time_interval: i64::MAX,
        last_check_in: i64::MIN,
        is_released: true,
        derivation_seed: u64::MAX,
        derivation_proof: 255,
        delegate: Some(key(0xcc)),
        bounty: u64::MAX,
        name: "n".repeat(32),
        locked_native_amount: u64::MAX,
        asset_mint: Some(key(0xdd)),
        locked_asset_amount: u64::MAX,
    }
}

fn smallest() -> Vault {
    Vault {
        owner: key(0),
        recipient: key(0),
        payload_reference: String::new(),
        encrypted_key: String::new(),
        time_interval: 1,
        last_check_in: 0,
        is_released: false,
        derivation_seed: 0,
        derivation_proof: 0,
        delegate: None,
        bounty: 0,
        name: String::new(),
        locked_native_amount: 0,
        asset_mint: None,
        locked_asset_amount: 0,
    }
}

/// The encoding of `sample()`, written out by hand.
fn sample_encoding() -> Vec<u8> {
    let mut bytes = vec![211, 8, 232, 43, 2, 152, 117, 119];
    bytes.extend([1u8; 32]);
    bytes.extend([2u8; 32]);
    bytes.extend([2, 0, 0, 0, 81, 109]);
    bytes.extend([1, 0, 0, 0, 107]);
    bytes.extend([128, 81, 1, 0, 0, 0, 0, 0]);
    bytes.extend([251, 255, 255, 255, 255, 255, 255, 255]);
    bytes.extend([0]);
    bytes.extend([7, 0, 0, 0, 0, 0, 0, 0]);
    bytes.extend([254]);
    bytes.extend([1]);
    bytes.extend([9u8; 32]);
    bytes.extend([232, 3, 0, 0, 0, 0, 0, 0]);
    bytes.extend([5, 0, 0, 0, 119, 195, 175, 108, 108]);
    bytes.extend([136, 19, 0, 0, 0, 0, 0, 0]);
    bytes.extend([0]);
    bytes.extend([0, 0, 0, 0, 0, 0, 0, 0]);
    bytes
}

#[test]
fn slot_size_is_fixed() {
    assert_eq!(SPACE, 424);
    assert_eq!(Vault::SPACE, 424);
    for vault in [sample(), largest(), smallest()] {
        assert_eq!(vault.pack().unwrap().len(), 424);
    }
}

#[test]
fn stored_form_is_the_encoding_and_zeros() {
    let packed = sample().pack().unwrap();
    let encoding = sample_encoding();
    assert_eq!(encoding.len(), 176);
    assert_eq!(&packed[..176], &encoding[..]);
    assert!(packed[176..].iter().all(|b| *b == 0));
}

#[test]
fn largest_record_fills_the_slot_to_the_last_byte() {
    let packed = largest().pack().unwrap();
    assert_eq!(packed.len(), 424);
    assert_eq!(&packed[416..], &[255u8; 8]);
    assert_eq!(&packed[383..416][..1], &[1u8]);
    assert_eq!(&packed[384..416], &[0xddu8; 32]);
}

#[test]
fn stored_record_reads_back_unchanged() {
    for vault in [sample(), largest(), smallest()] {
        let packed = vault.pack().unwrap();
        assert_eq!(Vault::unpack(&packed), Some(vault));
    }
}

#[test]
fn pack_refuses_fields_beyond_their_maxima() {
    let mut vault = sample();
    vault.name = "n".repeat(33);
    assert!(!vault.within_bounds());
    assert_eq!(vault.pack(), None);

    let mut vault = sample();
    vault.payload_reference = "p".repeat(65);
    assert_eq!(vault.pack(), None);

    let mut vault = sample();
    vault.encrypted_key = "k".repeat(129);
    assert_eq!(vault.pack(), None);

    let mut vault = sample();
    vault.name = "é".repeat(17);
    assert_eq!(vault.pack(), None);
    vault.name = "é".repeat(16);
    assert!(vault.within_bounds());
    assert_eq!(vault.pack().unwrap().len(), 424);
}

#[test]
fn unpack_reads_the_encoding_alone() {
    assert_eq!(Vault::unpack(&sample_encoding()), Some(sample()));
}

#[test]
fn unpack_ignores_what_follows_the_encoding() {
    let mut bytes = sample_encoding();
    bytes.extend([0xffu8; 300]);
    assert_eq!(Vault::unpack(&bytes), Some(sample()));
}

#[test]
fn unpack_refuses_every_shorter_prefix() {
    let bytes = sample_encoding();
    for cut in 0..bytes.len() {
        assert_eq!(Vault::unpack(&bytes[..cut]), None, "prefix of {} bytes", cut);
    }
}

#[test]
fn unpack_refuses_another_tag() {
    let mut bytes = sample().pack().unwrap();
    bytes[0] ^= 1;
    assert_eq!(Vault::unpack(&bytes), None);
    let mut bytes = sample().pack().unwrap();
    bytes[7] = 0;
    assert_eq!(Vault::unpack(&bytes), None);
    assert_eq!(Vault::unpack(&[0u8; 424]), None);
}

#[test]
fn unpack_refuses_a_flag_that_is_neither_zero_nor_one() {
    let mut bytes = sample().pack().unwrap();
    // tag 8, identities 64, strings 6 and 5, two timestamps 16
    let flag = 8 + 64 + 6 + 5 + 16;
    assert_eq!(bytes[flag], 0);
    bytes[flag] = 1;
    assert_eq!(Vault::unpack(&bytes), Some(Vault { is_released: true, ..sample() }));
    bytes[flag] = 2;
    assert_eq!(Vault::unpack(&bytes), None);
}

#[test]
fn unpack_refuses_a_wrong_mark_before_an_optional_identity() {
    let mut bytes = sample().pack().unwrap();
    let mark = 8 + 64 + 6 + 5 + 16 + 1 + 8 + 1;
    assert_eq!(bytes[mark], 1);
    bytes[mark] = 2;
    assert_eq!(Vault::unpack(&bytes), None);
}

#[test]
fn unpack_refuses_a_length_beyond_the_maximum() {
    let mut bytes = largest().pack().unwrap();
    assert_eq!(&bytes[72..76], &[64, 0, 0, 0]);
    bytes[72] = 65;
    assert_eq!(Vault::unpack(&bytes), None);
    let mut bytes = largest().pack().unwrap();
    bytes[75] = 1;
    assert_eq!(Vault::unpack(&bytes), None);
}

#[test]
fn unpack_refuses_text_that_is_not_utf8() {
    let mut bytes = sample().pack().unwrap();
    assert_eq!(bytes[76], b'Q');
    bytes[76] = 0xff;
    assert_eq!(Vault::unpack(&bytes), None);
    // A two-byte character cut in half.
    let mut bytes = sample().pack().unwrap();
    let name = 8 + 64 + 6 + 5 + 16 + 1 + 8 + 1 + 33 + 8;
    assert_eq!(&bytes[name..name + 9], &[5, 0, 0, 0, 119, 195, 175, 108, 108]);
    bytes[name + 6] = b'x';
    assert_eq!(Vault::unpack(&bytes), None);
}

#[test]
fn unpack_decodes_text_as_utf8() {
    let got = Vault::unpack(&sample().pack().unwrap()).unwrap();
    assert_eq!(got.name, "wïll");
    assert_eq!(got.name.chars().count(), 4);
    assert_eq!(got.name.len(), 5);
    assert_eq!(got.payload_reference, "Qm");
    assert_eq!(got.encrypted_key, "k");
}

#[test]
fn unpack_reads_negative_timestamps() {
    let vault = Vault { last_check_in: i64::MIN, time_interval: -1, ..sample() };
    assert_eq!(Vault::unpack(&vault.pack().unwrap()), Some(vault));
}

#[test]
fn signer_seeds_are_the_four_seeds_of_the_address() {
    let seeds = Vault { derivation_seed: 0x0102030405060708, ..sample() }.signer_seeds();
    assert_eq!(
        seeds,
        vec![
            b"vault".to_vec(),
            vec![1u8; 32],
            vec![8, 7, 6, 5, 4, 3, 2, 1],
            vec![254],
        ]
    );
    assert_eq!(&VAULT_SEED, b"vault");
}
