use des::Des;

const TEST_KEY: u64 = 0x1334_5779_9BBC_DFF1;
const TEST_PLAINTEXT: u64 = 0x0123_4567_89AB_CDEF;
const TEST_CIPHERTEXT: u64 = 0x85E8_1354_0F0A_B405;

fn des_instance() -> Des {
    Des::new(TEST_KEY)
}

#[test]
fn encrypt_decrypt_roundtrip() {
    let des = des_instance();

    let ciphertext = des.encrypt(TEST_PLAINTEXT);
    let decrypted = des.decrypt(ciphertext);
    let re_ciphertext = des.encrypt(decrypted);

    assert_eq!(ciphertext, TEST_CIPHERTEXT, "Encryption failed");
    assert_eq!(decrypted, TEST_PLAINTEXT, "Decryption failed");
    assert_eq!(re_ciphertext, TEST_CIPHERTEXT, "Re-encryption failed");
}

#[test]
fn weak_keys_rejected() {
    let weak_keys = [0x0101010101010101, 0xFEFEFEFEFEFEFEFE, 0xE001E001E001E001];

    for key in weak_keys {
        let des = Des::new(key);
        let plaintext = TEST_PLAINTEXT;
        let encrypted = des.encrypt(plaintext);
        let dectrypted = des.decrypt(encrypted);
        assert_eq!(
            dectrypted, plaintext,
            "Weak key {key:016X} failed roundtrip"
        );
    }
}

#[test]
fn all_zero_paintext() {
    let des = des_instance();

    let plain = 0;
    let encrypted = des.encrypt(plain);
    let decrypted = des.decrypt(encrypted);
    assert_eq!(decrypted, plain, "All-zero plaintext failed");
}

#[test]
fn all_one_paintext() {
    let des = des_instance();

    let plain = u64::MAX;
    let encrypted = des.encrypt(plain);
    let decrypted = des.decrypt(encrypted);
    assert_eq!(decrypted, plain, "All-one plaintext failed");
}

#[test]
fn different_inputs() {
    let des = des_instance();

    let plain1 = 1;
    let plain2 = 2;
    let enc1 = des.encrypt(plain1);
    let enc2 = des.encrypt(plain2);
    assert_ne!(
        enc1, enc2,
        "Encryption not deterministic for different inputs"
    );
}

#[test]
fn test_ecb_mode_equivalence() {
    let key = 0x1334_5779_9BBC_DFF1;
    let des = Des::new(key);
    let plain = 0x0123_4567_89AB_CDEF;

    let _single_block = des.encrypt(plain);
}

#[test]
fn test_with_real_data() {
    let key_bytes = b"KGenius\x01";
    let key = u64::from_le_bytes(*key_bytes);

    let data_bytes = b"HelloDES!";
    let mut padded = [0u8; 8];
    padded.copy_from_slice(&data_bytes[..8]);
    let plaintext = u64::from_le_bytes(padded);

    let des = Des::new(key);
    let encrypted = des.encrypt(plaintext);

    let decrypted = des.decrypt(encrypted);
    let decrypted_bytes = decrypted.to_le_bytes();
    assert_eq!(decrypted_bytes[..8], data_bytes[..8]);
}

#[test]
fn more_known_answers() {
    let cases = [
        (TEST_KEY, 0x0123_4567_89AB_CDEFu64, 0x85E8_1354_0F0A_B405u64),
        (0x0E32_9232_EA6D_0D73, 0x8787_8787_8787_8787u64, 0x0000_0000_0000_0000u64),
    ];
    for (key, plaintext, expected) in cases {
        let des = Des::new(key);
        assert_eq!(des.encrypt(plaintext), expected, "{plaintext:016X}");
        assert_eq!(des.decrypt(expected), plaintext, "{expected:016X}");
    }
}

#[test]
fn repeated_encryption_is_deterministic() {
    let des = des_instance();
    let first = des.encrypt(TEST_PLAINTEXT);
    for _ in 0..10 {
        assert_eq!(des.encrypt(TEST_PLAINTEXT), first);
    }
    assert_eq!(Des::new(TEST_KEY).encrypt(TEST_PLAINTEXT), first);
}

#[test]
fn distinct_keys_give_distinct_ciphertexts() {
    let other = Des::new(0x0E32_9232_EA6D_0D73);
    assert_ne!(other.encrypt(TEST_PLAINTEXT), des_instance().encrypt(TEST_PLAINTEXT));
}

#[test]
fn parity_bits_do_not_change_the_cipher() {
    let flipped = Des::new(TEST_KEY ^ 0x0101_0101_0101_0101);
    assert_eq!(flipped.subkeys, des_instance().subkeys);
    assert_eq!(flipped.encrypt(TEST_PLAINTEXT), TEST_CIPHERTEXT);
}

#[test]
fn boundary_blocks_round_trip_under_several_keys() {
    for key in [0u64, u64::MAX, TEST_KEY, 0x0E32_9232_EA6D_0D73] {
        let des = Des::new(key);
        for block in [0u64, u64::MAX] {
            assert_eq!(des.decrypt(des.encrypt(block)), block);
            assert_eq!(des.encrypt(des.decrypt(block)), block);
        }
    }
}
