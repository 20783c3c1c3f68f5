use des::keys::SUBKEY_MAX;
use des::{
    decrypt_ecb, encrypt_ecb, Args, Block, Des, DesError, Key, Operation, OutputFormat, Subkey,
    Subkeys, Value,
};

const TEST_KEY: u64 = 0x1334_5779_9BBC_DFF1;

#[test]
fn subkey_accepts_48_bits_only() {
    assert_eq!(Subkey::try_from(SUBKEY_MAX).unwrap().value(), SUBKEY_MAX);
    assert!(Subkey::try_from(0x1234).unwrap().equals_value(&0x1234));
    match Subkey::try_from(SUBKEY_MAX + 1) {
        Err(DesError::KeyOutOfRange { value, max, width }) => {
            assert_eq!((value, max, width), (SUBKEY_MAX + 1, SUBKEY_MAX, 48));
        }
        other => panic!("unexpected {other:?}"),
    }
}

#[test]
fn subkeys_from_a_cipher() {
    let des = Des::new(TEST_KEY);
    let subkeys = Subkeys::try_from(des.subkeys).unwrap();
    for (k, expected) in subkeys.as_ref().iter().zip(des.subkeys.iter()) {
        assert_eq!(k.value(), *expected);
    }
    let mut wide = des.subkeys;
    wide[3] = 1 << 48;
    wide[9] = 1 << 50;
    match Subkeys::try_from(wide) {
        Err(DesError::KeyOutOfRange { value, .. }) => assert_eq!(value, 1 << 48),
        other => panic!("unexpected {other:?}"),
    }
}

#[test]
fn plain_wrappers() {
    assert_eq!(Key::from(TEST_KEY).value(), TEST_KEY);
    assert_eq!(Block::from(5).value(), 5);
    assert_eq!(Block::default().value(), 0);
    match DesError::unknown("boom") {
        DesError::Unknown(m) => assert_eq!(m, "boom"),
        other => panic!("unexpected {other:?}"),
    }
}

#[test]
fn args_execute_encrypts_or_decrypts() {
    let encrypt = Args {
        operation: Operation::Encrypt,
        key: Value::from(TEST_KEY),
        text: Value::from(0x0123_4567_89AB_CDEF),
    };
    assert_eq!(encrypt.execute(), 0x85E8_1354_0F0A_B405);
    let decrypt = Args {
        operation: Operation::Decrypt { output_format: Some(OutputFormat::Hex) },
        key: Value::from(TEST_KEY),
        text: Value::from(0x85E8_1354_0F0A_B405),
    };
    assert_eq!(decrypt.execute(), 0x0123_4567_89AB_CDEF);
    assert_eq!(Operation::default(), Operation::Encrypt);
    assert_eq!(OutputFormat::default(), OutputFormat::Hex);
}

#[test]
fn ecb_matches_single_blocks() {
    let key = TEST_KEY.to_le_bytes();
    let des = Des::new(TEST_KEY);
    let blocks = [0x0123_4567_89AB_CDEFu64, 0, u64::MAX];
    let data: Vec<u8> = blocks.iter().flat_map(|b| b.to_le_bytes()).collect();
    let encrypted = encrypt_ecb(&data, &key);
    assert_eq!(encrypted.len(), data.len());
    for (i, block) in blocks.iter().enumerate() {
        let chunk: [u8; 8] = encrypted[8 * i..8 * i + 8].try_into().unwrap();
        assert_eq!(u64::from_le_bytes(chunk), des.encrypt(*block));
    }
    assert_eq!(decrypt_ecb(&encrypted, &key), data);
    assert!(encrypt_ecb(&[], &key).is_empty());
}
