//! The DES block cipher: the Feistel round function and the sixteen-round
//! pipeline between the initial and final permutations.
use vstd::prelude::*;

use crate::key_schedule::{generate_subkeys, key_schedule, pc1_of, schedule_halves};
use crate::permutation::{
    bit, lemma_bits_determine_value, lemma_permuted_bit, permute, permuted, source_offset,
    table_fits,
};
use crate::tables::{EXPANSION, FP, IP, PC1_TABLE, PERMUTATION, S_BOXES};

verus! {

/// The initial permutation of a block.
pub open spec fn initial_permutation(block: u64) -> u64 {
    permuted(block, 64, 64, IP@)
}

/// The final permutation of a block.
pub open spec fn final_permutation(block: u64) -> u64 {
    permuted(block, 64, 64, FP@)
}

/// A 32-bit half widened to 48 bits by the expansion table.
pub open spec fn expansion(right: u32) -> u64 {
    permuted(right as u64, 32, 48, EXPANSION@)
}

/// The straight permutation of a 32-bit value.
pub open spec fn straight_permutation(input: u32) -> u32 {
    permuted(input as u64, 32, 32, PERMUTATION@) as u32
}

/// The 6-bit group `i` of a 48-bit value, group 0 being the most significant.
pub open spec fn sbox_group(input: u64, i: int) -> u64 {
    (input >> (42 - 6 * i) as u64) & 0x3F
}

/// The row a 6-bit group selects: its outer two bits.
pub open spec fn sbox_row(group: u64) -> u64 {
    ((group >> 4u64) & 2) | (group & 1)
}

/// The column a 6-bit group selects: its inner four bits.
pub open spec fn sbox_column(group: u64) -> u64 {
    (group >> 1u64) & 0xF
}

/// What box `i` yields for a 6-bit group.
pub open spec fn sbox_lookup(i: int, group: u64) -> u8 {
    S_BOXES@[i]@[16 * sbox_row(group) + sbox_column(group)]
}

/// The outputs of the first `n` boxes, each a nibble placed from the most
/// significant end down.
pub open spec fn substituted_prefix(input: u64, n: nat) -> u32
    decreases n,
{
    if n == 0 {
        0
    } else {
        let i = n - 1;
        substituted_prefix(input, i as nat) | ((sbox_lookup(i, sbox_group(input, i)) as u32) << (28
            - 4 * i) as u32)
    }
}

/// The eight S-box outputs of a 48-bit value, joined into 32 bits.
pub open spec fn substituted(input: u64) -> u32 {
    substituted_prefix(input, 8)
}

/// The Feistel round function: expansion, mixing in the subkey, substitution
/// and the straight permutation.
pub open spec fn round_function(right: u32, subkey: u64) -> u32 {
    straight_permutation(substituted(expansion(right) ^ subkey))
}

/// The halves `(left, right)` after the first `n` rounds with `keys`.
pub open spec fn rounds(left: u32, right: u32, keys: Seq<u64>, n: nat) -> (u32, u32)
    decreases n,
{
    if n == 0 {
        (left, right)
    } else {
        let (l, r) = rounds(left, right, keys, (n - 1) as nat);
        (r, l ^ round_function(r, keys[n - 1]))
    }
}

/// The high 32 bits.
pub open spec fn high_half(x: u64) -> u32 {
    (x >> 32u64) as u32
}

/// The low 32 bits.
pub open spec fn low_half(x: u64) -> u32 {
    (x & 0xFFFF_FFFF) as u32
}

/// `high` above `low`.
pub open spec fn join_halves(high: u32, low: u32) -> u64 {
    ((high as u64) << 32u64) | (low as u64)
}

/// The sixteen-round DES transform of `block` with the round keys `keys` in
/// the order given: initial permutation, sixteen rounds, the halves swapped,
/// final permutation.
pub open spec fn des_transform(keys: Seq<u64>, block: u64) -> u64 {
    let x = initial_permutation(block);
    let (l, r) = rounds(high_half(x), low_half(x), keys, 16);
    final_permutation(join_halves(r, l))
}

/// DES encryption of `block` under the subkeys `subkeys` (round 1 first).
pub open spec fn encrypt_block(subkeys: Seq<u64>, block: u64) -> u64 {
    des_transform(subkeys, block)
}

/// DES decryption: the same transform with the subkeys in reverse order.
pub open spec fn decrypt_block(subkeys: Seq<u64>, block: u64) -> u64 {
    des_transform(subkeys.reverse(), block)
}

/// `first` undoes `second` on the first `n` positions: entry `k` of `second`
/// names the position of `first` that holds `k + 1`.
pub open spec fn undoes_upto(first: Seq<u8>, second: Seq<u8>, n: nat) -> bool
    decreases n,
{
    n == 0 || (undoes_upto(first, second, (n - 1) as nat) && first[second[n - 1] - 1] == n)
}

proof fn lemma_undoes_upto(first: Seq<u8>, second: Seq<u8>, n: nat)
    requires
        undoes_upto(first, second, n),
    ensures
        forall|k: int| 0 <= k < n ==> #[trigger] first[second[k] - 1] == k + 1,
    decreases n,
{
    if n > 0 {
        lemma_undoes_upto(first, second, (n - 1) as nat);
    }
}

/// Composing two 64-bit permutations whose tables undo each other gives back
/// the input.
proof fn lemma_permutations_cancel(first: Seq<u8>, second: Seq<u8>, x: u64)
    requires
        table_fits(first, 64, 64),
        table_fits(second, 64, 64),
        forall|k: int| 0 <= k < 64 ==> #[trigger] first[second[k] - 1] == k + 1,
    ensures
        permuted(permuted(x, 64, 64, first), 64, 64, second) == x,
{
    let y = permuted(x, 64, 64, first);
    assert forall|j: u64| j < 64 implies #[trigger] bit(permuted(y, 64, 64, second), j) == bit(
        x,
        j,
    ) by {
        let k = 63 - j;
        lemma_permuted_bit(y, 64, 64, second, j);
        let from = source_offset(second, 64, k);
        lemma_permuted_bit(x, 64, 64, first, from);
        assert(first[second[k] - 1] == k + 1);
    }
    lemma_bits_determine_value(permuted(y, 64, 64, second), x);
}

/// The final permutation undoes the initial one, and the initial one undoes
/// the final one.
pub proof fn lemma_ip_fp_inverse(x: u64)
    ensures
        final_permutation(initial_permutation(x)) == x,
        initial_permutation(final_permutation(x)) == x,
{
    assert(table_fits(IP@, 64, 64));
    assert(table_fits(FP@, 64, 64));
    reveal_with_fuel(undoes_upto, 65);
    assert(undoes_upto(IP@, FP@, 64));
    assert(undoes_upto(FP@, IP@, 64));
    lemma_undoes_upto(IP@, FP@, 64);
    lemma_undoes_upto(FP@, IP@, 64);
    lemma_permutations_cancel(IP@, FP@, x);
    lemma_permutations_cancel(FP@, IP@, x);
}

/// Running the rounds backwards: started from the swapped halves after `n`
/// rounds, `m` rounds with the keys in reverse order give the swapped halves
/// after `n - m` rounds.
proof fn lemma_rounds_undo(left: u32, right: u32, keys: Seq<u64>, back: Seq<u64>, n: nat, m: nat)
    requires
        m <= n <= keys.len(),
        m <= back.len(),
        forall|i: int| 0 <= i < m ==> #[trigger] back[i] == keys[n - 1 - i],
    ensures
        ({
            let (ln, rn) = rounds(left, right, keys, n);
            let (lk, rk) = rounds(left, right, keys, (n - m) as nat);
            rounds(rn, ln, back, m) == (rk, lk)
        }),
    decreases m,
{
    if m > 0 {
        lemma_rounds_undo(left, right, keys, back, n, (m - 1) as nat);
        let j = n - m;
        let (lp, rp) = rounds(left, right, keys, j as nat);
        let f = round_function(rp, keys[j]);
        assert(back[m - 1] == keys[j]);
        assert((lp ^ f) ^ f == lp) by (bit_vector);
    }
}

proof fn lemma_halves(x: u64, high: u32, low: u32)
    ensures
        join_halves(high_half(x), low_half(x)) == x,
        high_half(join_halves(high, low)) == high,
        low_half(join_halves(high, low)) == low,
{
    assert(((((x >> 32u64) as u32) as u64) << 32u64) | (((x & 0xFFFF_FFFF) as u32) as u64) == x)
        by (bit_vector);
    assert((((((high as u64) << 32u64) | (low as u64)) >> 32u64) as u32) == high) by (bit_vector);
    assert((((((high as u64) << 32u64) | (low as u64)) & 0xFFFF_FFFF) as u32) == low)
        by (bit_vector);
}

/// Transforming with `back`, the sixteen keys of `keys` in reverse order,
/// undoes transforming with `keys`.
proof fn lemma_transform_undo(keys: Seq<u64>, back: Seq<u64>, block: u64)
    requires
        keys.len() == 16,
        back.len() == 16,
        forall|i: int| 0 <= i < 16 ==> #[trigger] back[i] == keys[15 - i],
    ensures
        des_transform(back, des_transform(keys, block)) == block,
{
    let x = initial_permutation(block);
    let (l, r) = rounds(high_half(x), low_half(x), keys, 16);
    let y = join_halves(r, l);
    lemma_ip_fp_inverse(y);
    lemma_halves(y, r, l);
    lemma_rounds_undo(high_half(x), low_half(x), keys, back, 16, 16);
    lemma_halves(x, 0, 0);
    lemma_ip_fp_inverse(block);
}

/// Decryption undoes encryption, and encryption undoes decryption, for every
/// key and every block.
pub proof fn lemma_round_trip(key: u64, block: u64)
    ensures
        decrypt_block(key_schedule(key), encrypt_block(key_schedule(key), block)) == block,
        encrypt_block(key_schedule(key), decrypt_block(key_schedule(key), block)) == block,
{
    lemma_round_trip_any_subkeys(key_schedule(key), block);
}

/// The round trip holds for any sixteen subkeys, not only for those a key
/// schedule produces.
pub proof fn lemma_round_trip_any_subkeys(subkeys: Seq<u64>, block: u64)
    requires
        subkeys.len() == 16,
    ensures
        decrypt_block(subkeys, encrypt_block(subkeys, block)) == block,
        encrypt_block(subkeys, decrypt_block(subkeys, block)) == block,
{
    let back = subkeys.reverse();
    lemma_transform_undo(subkeys, back, block);
    lemma_transform_undo(back, subkeys, block);
}

/// Encryption under one key never maps two different blocks to the same
/// ciphertext.
pub proof fn lemma_encrypt_injective(key: u64, block1: u64, block2: u64)
    requires
        block1 != block2,
    ensures
        encrypt_block(key_schedule(key), block1) != encrypt_block(key_schedule(key), block2),
{
    lemma_round_trip(key, block1);
    lemma_round_trip(key, block2);
}

/// Blocks of all zeros and of all ones come back unchanged from encryption
/// followed by decryption, under every key.
pub proof fn lemma_boundary_blocks_round_trip(key: u64)
    ensures
        decrypt_block(key_schedule(key), encrypt_block(key_schedule(key), 0)) == 0,
        decrypt_block(key_schedule(key), encrypt_block(key_schedule(key), u64::MAX)) == u64::MAX,
{
    lemma_round_trip(key, 0);
    lemma_round_trip(key, u64::MAX);
}

proof fn lemma_schedule_halves_from_pc1(key1: u64, key2: u64, n: nat)
    requires
        pc1_of(key1) == pc1_of(key2),
    ensures
        schedule_halves(key1, n) == schedule_halves(key2, n),
    decreases n,
{
    if n > 0 {
        lemma_schedule_halves_from_pc1(key1, key2, (n - 1) as nat);
    }
}

/// The subkeys, and so the cipher, depend on the key only through permuted
/// choice 1. In particular encrypting the same block under the same key always
/// gives the same result.
pub proof fn lemma_cipher_depends_on_pc1_only(key1: u64, key2: u64, block: u64)
    requires
        pc1_of(key1) == pc1_of(key2),
    ensures
        key_schedule(key1) == key_schedule(key2),
        encrypt_block(key_schedule(key1), block) == encrypt_block(key_schedule(key2), block),
        decrypt_block(key_schedule(key1), block) == decrypt_block(key_schedule(key2), block),
{
    assert forall|i: int| 0 <= i < 16 implies #[trigger] key_schedule(key1)[i] == key_schedule(
        key2,
    )[i] by {
        lemma_schedule_halves_from_pc1(key1, key2, (i + 1) as nat);
    }
    assert(key_schedule(key1) =~= key_schedule(key2));
}

/// No entry of `table` among its first `n` names a parity position (a
/// multiple of 8).
pub open spec fn skips_parity_upto(table: Seq<u8>, n: nat) -> bool
    decreases n,
{
    n == 0 || (skips_parity_upto(table, (n - 1) as nat) && table[n - 1] % 8 != 0)
}

proof fn lemma_skips_parity_upto(table: Seq<u8>, n: nat)
    requires
        skips_parity_upto(table, n),
    ensures
        forall|i: int| 0 <= i < n ==> #[trigger] table[i] % 8 != 0,
    decreases n,
{
    if n > 0 {
        lemma_skips_parity_upto(table, (n - 1) as nat);
    }
}

/// The bits of a key in its parity positions: the least significant bit of
/// each byte.
pub const PARITY_BITS: u64 = 0x0101_0101_0101_0101;

/// Changing only parity bits of a key changes neither permuted choice 1 nor
/// the cipher: distinct keys such as `k` and `k ^ PARITY_BITS` encrypt and
/// decrypt every block alike.
pub proof fn lemma_parity_bits_ignored(key: u64, flips: u64, block: u64)
    requires
        flips & !PARITY_BITS == 0,
    ensures
        pc1_of(key ^ flips) == pc1_of(key),
        encrypt_block(key_schedule(key ^ flips), block) == encrypt_block(key_schedule(key), block),
        decrypt_block(key_schedule(key ^ flips), block) == decrypt_block(key_schedule(key), block),
{
    assert(table_fits(PC1_TABLE@, 64, 56));
    reveal_with_fuel(skips_parity_upto, 57);
    assert(skips_parity_upto(PC1_TABLE@, 56));
    lemma_skips_parity_upto(PC1_TABLE@, 56);
    let a = pc1_of(key ^ flips);
    let b = pc1_of(key);
    assert forall|j: u64| j < 64 implies #[trigger] bit(a, j) == bit(b, j) by {
        lemma_permuted_bit(key ^ flips, 64, 56, PC1_TABLE@, j);
        lemma_permuted_bit(key, 64, 56, PC1_TABLE@, j);
        if j < 56 {
            let i = 55 - j;
            let o = source_offset(PC1_TABLE@, 64, i);
            assert(PC1_TABLE@[i] % 8 != 0);
            assert(o % 8 != 0);
            assert(flips & !0x0101_0101_0101_0101u64 == 0 && o < 64 && o % 8 != 0 ==> ((key
                ^ flips) >> o) & 1 == (key >> o) & 1) by (bit_vector);
        }
    }
    lemma_bits_determine_value(a, b);
    lemma_cipher_depends_on_pc1_only(key ^ flips, key, block);
}

/// A DES cipher: the sixteen round subkeys of its key, round 1 first.
#[derive(Debug)]
pub struct Des {
    pub subkeys: [u64; 16],
}

impl Des {
    /// A cipher for `key`; its subkeys are computed here, once.
    pub fn new(key: u64) -> (d: Des)
        ensures
            d.subkeys@ == key_schedule(key),
            forall|i: int| 0 <= i < 16 ==> #[trigger] d.subkeys@[i] >> 48u64 == 0,
    {
        let subkeys = generate_subkeys(key);
        Des { subkeys }
    }

    /// Encrypts one 64-bit block.
    pub fn encrypt(&self, block: u64) -> (r: u64)
        ensures
            r == encrypt_block(self.subkeys@, block),
    {
        self.des(block, true)
    }

    /// Decrypts one 64-bit block.
    pub fn decrypt(&self, block: u64) -> (r: u64)
        ensures
            r == decrypt_block(self.subkeys@, block),
    {
        self.des(block, false)
    }

    /// Widens the right half from 32 bits to 48.
    fn expand(&self, right: u32) -> (r: u64)
        ensures
            r == expansion(right),
    {
        let table: &[u8] = &EXPANSION;
        assert(table_fits(table@, 32, 48));
        permute(right as u64, 32, 48, table)
    }

    /// Replaces each 6-bit group of a 48-bit value by its S-box output.
    fn substitute(&self, input: u64) -> (r: u32)
        ensures
            r == substituted(input),
    {
        let mut acc: u32 = 0;
        let mut i: usize = 0;
        while i < 8
            invariant
                i <= 8,
                acc == substituted_prefix(input, i as nat),
            decreases 8 - i,
        {
            let shift_by: u64 = (42 - 6 * i) as u64;
            let group = (input >> shift_by) & 0x3F;
            let row = ((group >> 4) & 2) | (group & 1);
            let column = (group >> 1) & 0xF;
            assert(row <= 3 && column <= 15) by (bit_vector)
                requires
                    row == ((group >> 4u64) & 2) | (group & 1),
                    column == (group >> 1u64) & 0xF,
            ;
            let value = S_BOXES[i][(16 * row + column) as usize];
            let place: u32 = (28 - 4 * i) as u32;
            acc = acc | ((value as u32) << place);
            i = i + 1;
        }
        acc
    }

    /// Feistel function: expand, mix in the subkey, substitute, permute.
    fn feistel(&self, right: u32, subkey: u64) -> (r: u32)
        ensures
            r == round_function(right, subkey),
    {
        let mixed = self.expand(right) ^ subkey;
        let substituted = self.substitute(mixed);
        self.permutate_output(substituted)
    }

    /// The DES transform: encryption when `forward`, decryption otherwise.
    fn des(&self, block: u64, forward: bool) -> (r: u64)
        ensures
            r == if forward {
                encrypt_block(self.subkeys@, block)
            } else {
                decrypt_block(self.subkeys@, block)
            },
    {
        let keys = Ghost(
            if forward {
                self.subkeys@
            } else {
                self.subkeys@.reverse()
            },
        );
        let x = self.ip(block);
        let mut left: u32 = (x >> 32) as u32;
        let mut right: u32 = (x & 0xFFFF_FFFF) as u32;
        let mut i: usize = 0;
        while i < 16
            invariant
                i <= 16,
                keys@.len() == 16,
                forall|j: int|
                    0 <= j < 16 ==> #[trigger] keys@[j] == if forward {
                        self.subkeys@[j]
                    } else {
                        self.subkeys@[15 - j]
                    },
                (left, right) == rounds(high_half(x), low_half(x), keys@, i as nat),
            decreases 16 - i,
        {
            let subkey = if forward {
                self.subkeys[i]
            } else {
                self.subkeys[15 - i]
            };
            let new_right = left ^ self.feistel(right, subkey);
            left = right;
            right = new_right;
            i = i + 1;
        }
        self.fp(((right as u64) << 32) | (left as u64))
    }

    /// Permutes a 32-bit value by a table of `n` entries.
    fn permutate(&self, input: u32, table: &[u8], n: usize) -> (r: u32)
        requires
            n <= 32,
            table_fits(table@, 32, n as u32),
        ensures
            r == permuted(input as u64, 32, n as u32, table@) as u32,
    {
        permute(input as u64, 32, n as u32, table) as u32
    }

    /// The initial permutation of a block.
    pub fn ip(&self, message: u64) -> (r: u64)
        ensures
            r == initial_permutation(message),
    {
        let table: &[u8] = &IP;
        assert(table_fits(table@, 64, 64));
        permute(message, 64, 64, table)
    }

    /// The final permutation of a block.
    pub fn fp(&self, input: u64) -> (r: u64)
        ensures
            r == final_permutation(input),
    {
        let table: &[u8] = &FP;
        assert(table_fits(table@, 64, 64));
        permute(input, 64, 64, table)
    }

    /// The straight permutation applied after substitution.
    fn permutate_output(&self, input: u32) -> (r: u32)
        ensures
            r == straight_permutation(input),
    {
        let table: &[u8] = &PERMUTATION;
        assert(table_fits(table@, 32, 32));
        self.permutate(input, table, 32)
    }
}

} // verus!
