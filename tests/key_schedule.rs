use des::{concatenate_keys, pc1, pc2, shift, split_key, Des};

const EXPECTED_SUBKEYS: [u64; 16] = [
    0x1B02_EFFC_7072,
    0x79AE_D9DB_C9E5,
    0x55FC_8A42_CF99,
    0x72AD_D6DB_351D,
    0x7CEC_07EB_53A8,
    0x63A5_3E50_7B2F,
    0xEC84_B7F6_18BC,
    0xF78A_3AC1_3BFB,
    0xE0DB_EBED_E781,
    0xB1F3_47BA_464F,
    0x215F_D3DE_D386,
    0x7571_F594_67E9,
    0x97C5_D1FA_BA41,
    0x5F43_B7F2_E73A,
    0xBF91_8D3D_3F0A,
    0xCB3D_8B0E_17F5,
];

const TEST_KEY: u64 = 0x1334_5779_9BBC_DFF1;
const TEST_PC1_RESULT: u64 = 0x00F0_CCAA_F556_678F;

#[test]
fn key_schedule_key_schedule_generates_correct_subkeys() {
    let des = Des::new(TEST_KEY);

    assert_eq!(
        des.subkeys, EXPECTED_SUBKEYS,
        "Subkey generation failed. Expected: {EXPECTED_SUBKEYS:?}, Got: {:?}",
        des.subkeys
    );
}

#[test]
fn pc1_permutaion_correct() {
    let result = pc1(TEST_KEY);

    assert_eq!(result, TEST_PC1_RESULT, "PC1 permutation failed");
    assert!(
        result.leading_zeros() >= 8,
        "PC1 result should have leading 8 bits as 0"
    );
}

#[test]
fn split_key_56_bits() {
    let (left, right) = split_key(TEST_PC1_RESULT);

    assert_eq!(left, 0x0F0C_CAAF, "split_key left half mismatch",);
    assert_eq!(right, 0x0556_678F, "split_key right half mismatch",);

    assert!(left.leading_zeros() >= 4, "Left should be 28-bit value in u32");
    assert!(right.leading_zeros() >= 4, "Right should be 28-bit value in u32");
}

#[test]
fn split_key_wider_than_56_bits() {
    assert_eq!(split_key(0x0100_0000_0000_0002), (0x0100_0000, 0x0000_0002));
}

#[test]
fn pc2_permutaion_correct() {
    let cases: [(u64, u64); 17] = [
        (0x00F0_CCAA_F556_678F, 0xCB3D_8B0E_17F5),
        (0x00E1_9955_FAAC_CF1E, 0x1B02_EFFC_7072),
        (0x00C3_32AB_F559_9E3D, 0x79AE_D9DB_C9E5),
        (0x000C_CAAF_F566_78F5, 0x55FC_8A42_CF99),
        (0x0033_2ABF_C599_E3D5, 0x72AD_D6DB_351D),
        (0x00CC_AAFF_0667_8F55, 0x7CEC_07EB_53A8),
        (0x0032_ABFC_399E_3D55, 0x63A5_3E50_7B2F),
        (0x00CA_AFF0_C678_F556, 0xEC84_B7F6_18BC),
        (0x002A_BFC3_39E3_D559, 0xF78A_3AC1_3BFB),
        (0x0055_7F86_63C7_AAB3, 0xE0DB_EBED_E781),
        (0x0055_FE19_9F1E_AACC, 0xB1F3_47BA_464F),
        (0x0057_F866_5C7A_AB33, 0x215F_D3DE_D386),
        (0x005F_E199_51EA_ACCF, 0x7571_F594_67E9),
        (0x007F_8665_57AA_B33C, 0x97C5_D1FA_BA41),
        (0x00FE_1995_5EAA_CCF1, 0x5F43_B7F2_E73A),
        (0x00F8_6655_7AAB_33C7, 0xBF91_8D3D_3F0A),
        (0x00F0_CCAA_F556_678F, 0xCB3D_8B0E_17F5),
    ];
    for (before, after) in cases {
        let result = pc2(before);
        assert_eq!(result, after, "PC2 permutation failed");
        assert!(result.leading_zeros() >= 16, "PC2 result should have leading 16 bits as 0");
    }
}

#[test]
fn pc2_ignores_the_top_byte() {
    assert_eq!(pc2(0xFF00_0000_0000_0000 | TEST_PC1_RESULT), 0xCB3D_8B0E_17F5);
}

#[test]
fn shift_rotation() {
    let cases: [(u32, u32, u8); 32] = [
        (0x0F0C_CAAF, 0x0E19_955F, 1),
        (0x0E19_955F, 0x0C33_2ABF, 1),
        (0x0C33_2ABF, 0x00CC_AAFF, 2),
        (0x00CC_AAFF, 0x0332_ABFC, 2),
        (0x0332_ABFC, 0x0CCA_AFF0, 2),
        (0x0CCA_AFF0, 0x032A_BFC3, 2),
        (0x032A_BFC3, 0x0CAA_FF0C, 2),
        (0x0CAA_FF0C, 0x02AB_FC33, 2),
        (0x02AB_FC33, 0x0557_F866, 1),
        (0x0557_F866, 0x055F_E199, 2),
        (0x055F_E199, 0x057F_8665, 2),
        (0x057F_8665, 0x05FE_1995, 2),
        (0x05FE_1995, 0x07F8_6655, 2),
        (0x07F8_6655, 0x0FE1_9955, 2),
        (0x0FE1_9955, 0x0F86_6557, 2),
        (0x0F86_6557, 0x0F0C_CAAF, 1),
        (0x0556_678F, 0x0AAC_CF1E, 1),
        (0x0AAC_CF1E, 0x0559_9E3D, 1),
        (0x0559_9E3D, 0x0566_78F5, 2),
        (0x0566_78F5, 0x0599_E3D5, 2),
        (0x0599_E3D5, 0x0667_8F55, 2),
        (0x0667_8F55, 0x099E_3D55, 2),
        (0x099E_3D55, 0x0678_F556, 2),
        (0x0678_F556, 0x09E3_D559, 2),
        (0x09E3_D559, 0x03C7_AAB3, 1),
        (0x03C7_AAB3, 0x0F1E_AACC, 2),
        (0x0F1E_AACC, 0x0C7A_AB33, 2),
        (0x0C7A_AB33, 0x01EA_ACCF, 2),
        (0x01EA_ACCF, 0x07AA_B33C, 2),
        (0x07AA_B33C, 0x0EAA_CCF1, 2),
        (0x0EAA_CCF1, 0x0AAB_33C7, 2),
        (0x0AAB_33C7, 0x0556_678F, 1),
    ];
    for (key, expected, amount) in cases {
        let result = shift(key, amount);
        assert_eq!(result, expected, "shift(0x{key:08X}, {amount})");
        assert!(result.leading_zeros() >= 4);
    }
}

#[test]
fn shift_by_zero_masks_to_28_bits() {
    assert_eq!(shift(0xFFFF_FFFF, 0), 0x0FFF_FFFF);
    assert_eq!(shift(0x0800_0000, 27), 0x0400_0000);
}

#[test]
fn key_concatenation() {
    let cases: [(u32, u32, u64); 4] = [
        (0x0F0C_CAAF, 0x0556_678F, 0x00F0_CCAA_F556_678F),
        (0x0E19_955F, 0x0AAC_CF1E, 0x00E1_9955_FAAC_CF1E),
        (0x00CC_AAFF, 0x0566_78F5, 0x000C_CAAF_F566_78F5),
        (0x0F86_6557, 0x0AAB_33C7, 0x00F8_6655_7AAB_33C7),
    ];
    for (left, right, combined) in cases {
        let result = concatenate_keys(left, right);
        assert_eq!(result, combined, "{result:016X} != {combined:016X}");
        assert_eq!(result >> 56, 0, "Combined should fit in 56 bits");
    }
}
