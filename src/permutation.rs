//! The one bit-permutation routine that drives every DES permutation, and the
//! facts about single bits that the proofs about it rest on.
use vstd::prelude::*;

verus! {

/// Bit `i` of `x`, counted from the least significant end, as 0 or 1.
pub open spec fn bit(x: u64, i: u64) -> u64 {
    (x >> i) & 1
}

/// `table` can drive a permutation from an `input_bits`-wide field to an
/// `output_bits`-wide one: one entry per output bit, each a 1-based position
/// inside the input field.
pub open spec fn table_fits(table: Seq<u8>, input_bits: u32, output_bits: u32) -> bool {
    &&& 1 <= input_bits <= 64
    &&& output_bits <= 64
    &&& table.len() == output_bits
    &&& forall|i: int| 0 <= i < table.len() ==> 1 <= #[trigger] table[i] <= input_bits
}

/// Where output entry `i` reads from: the 1-based, most-significant-first
/// position `table[i]` as a bit offset from the least significant end.
pub open spec fn source_offset(table: Seq<u8>, input_bits: u32, i: int) -> u64 {
    (input_bits - table[i]) as u64
}

/// Where output entry `i` lands: bit `i` of the output counted from the most
/// significant end of the `output_bits`-wide field.
pub open spec fn target_offset(output_bits: u32, i: int) -> u64 {
    (output_bits - 1 - i) as u64
}

/// The output built from the first `n` entries of `table`.
pub open spec fn permuted_prefix(
    input: u64,
    input_bits: u32,
    output_bits: u32,
    table: Seq<u8>,
    n: nat,
) -> u64
    decreases n,
{
    if n == 0 {
        0
    } else {
        let i = n - 1;
        permuted_prefix(input, input_bits, output_bits, table, i as nat) | (bit(
            input,
            source_offset(table, input_bits, i),
        ) << target_offset(output_bits, i))
    }
}

/// `input`, read as an `input_bits`-wide field, permuted by `table` into an
/// `output_bits`-wide field.
pub open spec fn permuted(input: u64, input_bits: u32, output_bits: u32, table: Seq<u8>) -> u64 {
    permuted_prefix(input, input_bits, output_bits, table, table.len())
}

/// Maps `input` (an `input_bits`-wide field) to an `output_bits`-wide field:
/// output bit `i`, counted from the most significant end, is the input bit at
/// 1-based position `table[i]`, also counted from the most significant end.
pub fn permute(input: u64, input_bits: u32, output_bits: u32, table: &[u8]) -> (r: u64)
    requires
        table_fits(table@, input_bits, output_bits),
    ensures
        r == permuted(input, input_bits, output_bits, table@),
{
    let mut acc: u64 = 0;
    let mut i: usize = 0;
    while i < table.len()
        invariant
            table_fits(table@, input_bits, output_bits),
            i <= table@.len(),
            acc == permuted_prefix(input, input_bits, output_bits, table@, i as nat),
        decreases table@.len() - i,
    {
        let position = table[i];
        let from: u64 = (input_bits - position as u32) as u64;
        let to: u64 = (output_bits - 1 - i as u32) as u64;
        let b: u64 = (input >> from) & 1;
        acc = acc | (b << to);
        i = i + 1;
    }
    acc
}

/// A bit is 0 or 1.
pub proof fn lemma_bit_le_1(x: u64, i: u64)
    ensures
        bit(x, i) <= 1,
{
    assert((x >> i) & 1 <= 1) by (bit_vector);
}

/// Setting bit `s` to `b` (0 or 1) by `|` leaves every other bit as it was.
proof fn lemma_or_shifted_bit(p: u64, b: u64, s: u64, j: u64)
    requires
        b <= 1,
        s < 64,
        j < 64,
    ensures
        bit(p | (b << s), j) == if j == s {
            bit(p, j) | b
        } else {
            bit(p, j)
        },
{
    assert(((p | (b << s)) >> j) & 1 == if j == s {
        ((p >> j) & 1) | b
    } else {
        (p >> j) & 1
    }) by (bit_vector)
        requires
            b <= 1,
            s < 64,
            j < 64,
    ;
}

proof fn lemma_prefix_bit(
    input: u64,
    input_bits: u32,
    output_bits: u32,
    table: Seq<u8>,
    n: nat,
    j: u64,
)
    requires
        table_fits(table, input_bits, output_bits),
        n <= table.len(),
        j < 64,
    ensures
        bit(permuted_prefix(input, input_bits, output_bits, table, n), j) == if output_bits - n
            <= j < output_bits {
            bit(input, source_offset(table, input_bits, output_bits - 1 - j))
        } else {
            0
        },
    decreases n,
{
    if n == 0 {
        assert((0u64 >> j) & 1 == 0) by (bit_vector);
    } else {
        let i = n - 1;
        let p = permuted_prefix(input, input_bits, output_bits, table, i as nat);
        let b = bit(input, source_offset(table, input_bits, i));
        let s = target_offset(output_bits, i);
        lemma_prefix_bit(input, input_bits, output_bits, table, i as nat, j);
        lemma_bit_le_1(input, source_offset(table, input_bits, i));
        lemma_or_shifted_bit(p, b, s, j);
        if j == s {
            assert(0u64 | b == b) by (bit_vector);
        }
    }
}

/// Every bit of a permuted value: bit `j` (from the least significant end) is
/// the input bit that table entry `output_bits - 1 - j` names, or 0 above the
/// output field.
pub proof fn lemma_permuted_bit(
    input: u64,
    input_bits: u32,
    output_bits: u32,
    table: Seq<u8>,
    j: u64,
)
    requires
        table_fits(table, input_bits, output_bits),
        j < 64,
    ensures
        bit(permuted(input, input_bits, output_bits, table), j) == if j < output_bits {
            bit(input, source_offset(table, input_bits, output_bits - 1 - j))
        } else {
            0
        },
{
    lemma_prefix_bit(input, input_bits, output_bits, table, table.len(), j);
}

proof fn lemma_low_bits_agree(a: u64, b: u64, n: u64)
    requires
        n < 64,
        forall|j: u64| j <= n ==> #[trigger] bit(a, j) == bit(b, j),
    ensures
        a << ((63 - n) as u64) == b << ((63 - n) as u64),
    decreases n,
{
    assert(bit(a, n) == bit(b, n));
    if n == 0 {
        assert(((a >> 0u64) & 1) == ((b >> 0u64) & 1) ==> a << 63u64 == b << 63u64) by (bit_vector);
    } else {
        lemma_low_bits_agree(a, b, (n - 1) as u64);
        assert(a << ((64 - n) as u64) == b << ((64 - n) as u64) && ((a >> n) & 1) == ((b >> n) & 1)
            && 1 <= n < 64 ==> a << ((63 - n) as u64) == b << ((63 - n) as u64)) by (bit_vector);
    }
}

/// Two 64-bit values with the same 64 bits are equal.
pub proof fn lemma_bits_determine_value(a: u64, b: u64)
    requires
        forall|j: u64| j < 64 ==> #[trigger] bit(a, j) == bit(b, j),
    ensures
        a == b,
{
    lemma_low_bits_agree(a, b, 63);
    assert(a << 0u64 == a && b << 0u64 == b) by (bit_vector);
}

/// A permuted value has no bits above its `output_bits`-wide field.
pub proof fn lemma_permuted_fits(input: u64, input_bits: u32, output_bits: u32, table: Seq<u8>)
    requires
        table_fits(table, input_bits, output_bits),
        output_bits < 64,
    ensures
        permuted(input, input_bits, output_bits, table) >> (output_bits as u64) == 0,
{
    let p = permuted(input, input_bits, output_bits, table);
    let s = output_bits as u64;
    assert forall|j: u64| j < 64 implies #[trigger] bit(p >> s, j) == bit(0, j) by {
        assert(((p >> s) >> j) & 1 == if j + s < 64 {
            (p >> ((j + s) as u64)) & 1
        } else {
            0
        }) by (bit_vector)
            requires
                s < 64,
                j < 64,
        ;
        assert((0u64 >> j) & 1 == 0) by (bit_vector);
        if j + s < 64 {
            lemma_permuted_bit(input, input_bits, output_bits, table, (j + s) as u64);
        }
    }
    lemma_bits_determine_value(p >> s, 0);
}

} // verus!
