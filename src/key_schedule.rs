//! Derivation of the sixteen 48-bit round subkeys from a 64-bit key.
use vstd::prelude::*;

use crate::permutation::{lemma_permuted_fits, permute, permuted, table_fits};
use crate::tables::{PC1_TABLE, PC2_TABLE, ROUND_ROTATIONS};

verus! {

/// The low 28 bits.
pub const MASK_28: u32 = 0x0FFF_FFFF;

/// The low 56 bits.
pub const MASK_56: u64 = 0x00FF_FFFF_FFFF_FFFF;

/// The key reduced to 56 bits by permuted choice 1.
pub open spec fn pc1_of(key: u64) -> u64 {
    permuted(key, 64, 56, PC1_TABLE@)
}

/// The low 56 bits of `key` compressed to a 48-bit subkey by permuted choice 2.
pub open spec fn pc2_of(key: u64) -> u64 {
    permuted(key & MASK_56, 56, 48, PC2_TABLE@)
}

/// The two halves of a key: the 28-bit halves of a 56-bit value, or the two
/// 32-bit halves of a value with any of its top eight bits set.
pub open spec fn halves_of(key: u64) -> (u32, u32) {
    if key >> 56u64 == 0 {
        (((key >> 28u64) & 0x0FFF_FFFF) as u32, (key & 0x0FFF_FFFF) as u32)
    } else {
        ((key >> 32u64) as u32, (key & 0xFFFF_FFFF) as u32)
    }
}

/// The low 28 bits of `v`, rotated left by `n` within that 28-bit field.
pub open spec fn rotated_28(v: u32, n: u32) -> u32 {
    if n == 0 {
        v & MASK_28
    } else {
        (((v & MASK_28) << n) | ((v & MASK_28) >> (28 - n) as u32)) & MASK_28
    }
}

/// `left` above `right`, the latter taking the low 28 bits.
pub open spec fn joined_56(left: u32, right: u32) -> u64 {
    ((left as u64) << 28u64) | (right as u64)
}

/// The rotated halves C and D of the key after `n` rounds of the schedule.
pub open spec fn schedule_halves(key: u64, n: nat) -> (u32, u32)
    decreases n,
{
    if n == 0 {
        halves_of(pc1_of(key))
    } else {
        let (c, d) = schedule_halves(key, (n - 1) as nat);
        let amount = ROUND_ROTATIONS@[n - 1] as u32;
        (rotated_28(c, amount), rotated_28(d, amount))
    }
}

/// The subkey of round `i + 1`.
pub open spec fn round_subkey(key: u64, i: nat) -> u64 {
    let (c, d) = schedule_halves(key, i + 1);
    pc2_of(joined_56(c, d))
}

/// The sixteen subkeys of `key`, the subkey of round 1 first.
pub open spec fn key_schedule(key: u64) -> Seq<u64> {
    Seq::new(16, |i: int| round_subkey(key, i as nat))
}

/// Reduces a 64-bit key to 56 bits by permuted choice 1, dropping the eight
/// parity bits.
pub fn pc1(key: u64) -> (r: u64)
    ensures
        r == pc1_of(key),
        r >> 56u64 == 0,
{
    let table: &[u8] = &PC1_TABLE;
    assert(table_fits(table@, 64, 56));
    proof {
        lemma_permuted_fits(key, 64, 56, table@);
    }
    permute(key, 64, 56, table)
}

/// Compresses the low 56 bits of `key` to a 48-bit subkey by permuted choice 2.
pub fn pc2(key: u64) -> (r: u64)
    ensures
        r == pc2_of(key),
        r >> 48u64 == 0,
{
    let key_56 = key & MASK_56;
    let table: &[u8] = &PC2_TABLE;
    assert(table_fits(table@, 56, 48));
    proof {
        lemma_permuted_fits(key_56, 56, 48, table@);
    }
    permute(key_56, 56, 48, table)
}

/// Splits a 56-bit key into its 28-bit halves (left from the high bits); a
/// wider value splits into its 32-bit halves.
pub fn split_key(key: u64) -> (r: (u32, u32))
    ensures
        r == halves_of(key),
{
    if (key >> 56) == 0 {
        let masked = key & MASK_56;
        assert(key >> 56u64 == 0 ==> key & MASK_56 == key) by (bit_vector);
        let left = (masked >> 28) & 0x0FFF_FFFF;
        let right = masked & 0x0FFF_FFFF;
        return (left as u32, right as u32);
    }
    let left = (key >> 32) & 0xFFFF_FFFF;
    let right = key & 0xFFFF_FFFF;
    assert((key >> 32u64) & 0xFFFF_FFFF == (key >> 32u64) as u32) by (bit_vector);
    (left as u32, right as u32)
}

/// Rotates the low 28 bits of `key` left by `amount` within the 28-bit field.
pub fn shift(key: u32, amount: u8) -> (r: u32)
    requires
        amount < 28,
    ensures
        r == rotated_28(key, amount as u32),
        r <= MASK_28,
{
    let value = key & MASK_28;
    assert(key & 0x0FFF_FFFF <= 0x0FFF_FFFF) by (bit_vector);
    if amount == 0 {
        return value;
    }
    let n = amount as u32;
    assert(0 < n < 28 ==> 1u32 << n >= 1) by (bit_vector);
    let main_shifted = (value << n) & MASK_28;
    let wrapped_bits = (value >> (28 - n)) & ((1u32 << n) - 1);
    let r = (main_shifted | wrapped_bits) & MASK_28;
    assert(value == key & 0x0FFF_FFFF && 0 < n < 28 ==> r == ((value << n) | (value >> (28
        - n) as u32)) & 0x0FFF_FFFF && r <= 0x0FFF_FFFF) by (bit_vector)
        requires
            main_shifted == (value << n) & 0x0FFF_FFFF,
            wrapped_bits == (value >> (28 - n) as u32) & ((1u32 << n) - 1) as u32,
            r == (main_shifted | wrapped_bits) & 0x0FFF_FFFF,
    ;
    r
}

/// Joins two 28-bit halves into a 56-bit value, `left` in the high bits.
pub fn concatenate_keys(left: u32, right: u32) -> (r: u64)
    ensures
        r == joined_56(left, right),
{
    ((left as u64) << 28) | (right as u64)
}

/// The sixteen round subkeys of `key`, the subkey of round 1 first.
pub fn generate_subkeys(key: u64) -> (r: [u64; 16])
    ensures
        r@ == key_schedule(key),
        forall|i: int| 0 <= i < 16 ==> #[trigger] r@[i] >> 48u64 == 0,
{
    let reduced_key = pc1(key);
    let (mut left, mut right) = split_key(reduced_key);
    let mut subkeys: [u64; 16] = [0; 16];
    let mut i: usize = 0;
    while i < 16
        invariant
            i <= 16,
            (left, right) == schedule_halves(key, i as nat),
            forall|j: int| 0 <= j < i ==> subkeys@[j] == round_subkey(key, j as nat),
            forall|j: int| 0 <= j < i ==> #[trigger] subkeys@[j] >> 48u64 == 0,
        decreases 16 - i,
    {
        let amount = ROUND_ROTATIONS[i];
        assert(amount < 28);
        left = shift(left, amount);
        right = shift(right, amount);
        let subkey = pc2(concatenate_keys(left, right));
        subkeys[i] = subkey;
        i = i + 1;
    }
    assert(subkeys@ =~= key_schedule(key));
    subkeys
}

/// Rotating by `a` and then by `b` is rotating by `a + b`; a whole turn of
/// 28 leaves the 28-bit field as it was.
proof fn lemma_rotations_add(v: u32, a: u32, b: u32)
    requires
        a < 28,
        b < 28,
        a + b <= 28,
    ensures
        rotated_28(rotated_28(v, a), b) == if a + b == 28 {
            v & MASK_28
        } else {
            rotated_28(v, (a + b) as u32)
        },
{
    assert(a < 28 && b < 28 && a + b <= 28 ==> rotated_28(rotated_28(v, a), b) == if a + b == 28 {
        v & 0x0FFF_FFFF
    } else {
        rotated_28(v, (a + b) as u32)
    }) by (bit_vector);
}

/// The rotation applied by the first `n` rounds of the schedule.
pub open spec fn rotation_total(n: nat) -> nat
    decreases n,
{
    if n == 0 {
        0
    } else {
        rotation_total((n - 1) as nat) + ROUND_ROTATIONS@[n - 1] as nat
    }
}

proof fn lemma_halves_rotated(key: u64, n: nat)
    requires
        1 <= n <= 15,
    ensures
        ({
            let (c0, d0) = schedule_halves(key, 0);
            let (c, d) = schedule_halves(key, n);
            rotation_total(n) < 28 && c == rotated_28(c0, rotation_total(n) as u32) && d
                == rotated_28(d0, rotation_total(n) as u32)
        }),
    decreases n,
{
    reveal_with_fuel(rotation_total, 16);
    let (c0, d0) = schedule_halves(key, 0);
    let amount = ROUND_ROTATIONS@[n - 1] as u32;
    if n == 1 {
        lemma_rotations_add(c0, 0, amount);
        lemma_rotations_add(d0, 0, amount);
        assert(rotated_28(c0, 0) == c0 & MASK_28);
        assert(rotated_28(rotated_28(c0, 0), amount) == rotated_28(c0, amount)) by {
            assert(rotated_28(c0 & 0x0FFF_FFFF, amount) == rotated_28(c0, amount)) by (bit_vector);
        }
        assert(rotated_28(rotated_28(d0, 0), amount) == rotated_28(d0, amount)) by {
            assert(rotated_28(d0 & 0x0FFF_FFFF, amount) == rotated_28(d0, amount)) by (bit_vector);
        }
    } else {
        lemma_halves_rotated(key, (n - 1) as nat);
        let t = rotation_total((n - 1) as nat) as u32;
        lemma_rotations_add(c0, t, amount);
        lemma_rotations_add(d0, t, amount);
    }
}

/// The rotations of the schedule add up to a whole turn of the 28-bit halves:
/// after round 16 the halves C and D are again those that permuted choice 1
/// gave.
pub proof fn lemma_schedule_returns(key: u64)
    ensures
        schedule_halves(key, 16) == schedule_halves(key, 0),
{
    reveal_with_fuel(rotation_total, 17);
    lemma_halves_rotated(key, 15);
    let (c0, d0) = schedule_halves(key, 0);
    let (c15, d15) = schedule_halves(key, 15);
    lemma_rotations_add(c0, 27, 1);
    lemma_rotations_add(d0, 27, 1);
    let p = pc1_of(key);
    lemma_permuted_fits(key, 64, 56, PC1_TABLE@);
    assert(p >> 56u64 == 0 ==> ((p >> 28u64) & 0x0FFF_FFFF) as u32 & 0x0FFF_FFFF == ((p >> 28u64)
        & 0x0FFF_FFFF) as u32 && (p & 0x0FFF_FFFF) as u32 & 0x0FFF_FFFF == (p & 0x0FFF_FFFF) as u32)
        by (bit_vector);
}

} // verus!
