//! Electronic-codebook use of the cipher over byte strings: every 8-byte
//! block, read little-endian, is transformed on its own.
use vstd::prelude::*;

use vstd::bytes::{
    lemma_auto_spec_u64_to_from_le_bytes, spec_u64_from_le_bytes, spec_u64_to_le_bytes,
    u64_from_le_bytes, u64_to_le_bytes,
};
use vstd::slice::slice_subrange;

use crate::cipher::{decrypt_block, encrypt_block, lemma_round_trip, Des};
use crate::key_schedule::key_schedule;

verus! {

/// The key that eight key bytes denote, read little-endian.
pub open spec fn key_from_bytes(key: Seq<u8>) -> u64 {
    spec_u64_from_le_bytes(key)
}

/// `data`, cut into 8-byte little-endian blocks, each encrypted (`forward`) or
/// decrypted with `subkeys`, the results written back little-endian in order.
pub open spec fn ecb_transform(subkeys: Seq<u64>, data: Seq<u8>, forward: bool) -> Seq<u8>
    decreases data.len(),
{
    if data.len() < 8 {
        Seq::empty()
    } else {
        let n = data.len() - 8;
        let block = spec_u64_from_le_bytes(data.subrange(n, data.len() as int));
        let out = if forward {
            encrypt_block(subkeys, block)
        } else {
            decrypt_block(subkeys, block)
        };
        ecb_transform(subkeys, data.take(n), forward) + spec_u64_to_le_bytes(out)
    }
}

fn ecb(data: &[u8], key: &[u8; 8], forward: bool) -> (r: Vec<u8>)
    requires
        data@.len() % 8 == 0,
    ensures
        r@ == ecb_transform(key_schedule(key_from_bytes(key@)), data@, forward),
{
    proof {
        lemma_auto_spec_u64_to_from_le_bytes();
    }
    let key_bytes: &[u8] = key;
    let des = Des::new(u64_from_le_bytes(key_bytes));
    let ghost subkeys = key_schedule(key_from_bytes(key@));
    let mut out: Vec<u8> = Vec::new();
    let mut i: usize = 0;
    assert(data@.take(0).len() == 0);
    while i < data.len()
        invariant
            data@.len() % 8 == 0,
            i % 8 == 0,
            i <= data@.len(),
            des.subkeys@ == subkeys,
            out@ == ecb_transform(subkeys, data@.take(i as int), forward),
        decreases data@.len() - i,
    {
        let chunk = slice_subrange(data, i, i + 8);
        let block = u64_from_le_bytes(chunk);
        let result = if forward {
            des.encrypt(block)
        } else {
            des.decrypt(block)
        };
        let mut bytes = u64_to_le_bytes(result);
        out.append(&mut bytes);
        let ghost next = data@.take(i + 8);
        assert(next.take(i as int) =~= data@.take(i as int));
        assert(next.subrange(i as int, i + 8) =~= chunk@);
        i = i + 8;
    }
    assert(data@.take(data@.len() as int) =~= data@);
    out
}

/// Encrypts `data`, whose length is a multiple of 8, block by block under the
/// little-endian `key`.
pub fn encrypt_ecb(data: &[u8], key: &[u8; 8]) -> (r: Vec<u8>)
    requires
        data@.len() % 8 == 0,
    ensures
        r@ == ecb_transform(key_schedule(key_from_bytes(key@)), data@, true),
{
    ecb(data, key, true)
}

/// Decrypts `data`, whose length is a multiple of 8, block by block under the
/// little-endian `key`.
pub fn decrypt_ecb(data: &[u8], key: &[u8; 8]) -> (r: Vec<u8>)
    requires
        data@.len() % 8 == 0,
    ensures
        r@ == ecb_transform(key_schedule(key_from_bytes(key@)), data@, false),
{
    ecb(data, key, false)
}

proof fn lemma_ecb_len(subkeys: Seq<u64>, data: Seq<u8>, forward: bool)
    requires
        data.len() % 8 == 0,
    ensures
        ecb_transform(subkeys, data, forward).len() == data.len(),
    decreases data.len(),
{
    lemma_auto_spec_u64_to_from_le_bytes();
    if data.len() >= 8 {
        lemma_ecb_len(subkeys, data.take(data.len() - 8), forward);
    }
}

/// Decrypting in codebook mode undoes encrypting, under every key, for every
/// byte string whose length is a multiple of 8; and the other way round.
pub proof fn lemma_ecb_round_trip(key: u64, data: Seq<u8>)
    requires
        data.len() % 8 == 0,
    ensures
        ecb_transform(key_schedule(key), ecb_transform(key_schedule(key), data, true), false)
            == data,
        ecb_transform(key_schedule(key), ecb_transform(key_schedule(key), data, false), true)
            == data,
{
    lemma_ecb_undo(key, data, true);
    lemma_ecb_undo(key, data, false);
}

proof fn lemma_ecb_undo(key: u64, data: Seq<u8>, forward: bool)
    requires
        data.len() % 8 == 0,
    ensures
        ecb_transform(key_schedule(key), ecb_transform(key_schedule(key), data, forward), !forward)
            == data,
    decreases data.len(),
{
    lemma_auto_spec_u64_to_from_le_bytes();
    let subkeys = key_schedule(key);
    if data.len() >= 8 {
        let n = data.len() - 8;
        let front = data.take(n);
        let last = data.subrange(n, data.len() as int);
        let block = spec_u64_from_le_bytes(last);
        lemma_round_trip(key, block);
        let out = if forward {
            encrypt_block(subkeys, block)
        } else {
            decrypt_block(subkeys, block)
        };
        let e = ecb_transform(subkeys, data, forward);
        lemma_ecb_len(subkeys, front, forward);
        lemma_ecb_undo(key, front, forward);
        assert(e.take(n) =~= ecb_transform(subkeys, front, forward));
        assert(e.subrange(n, e.len() as int) =~= spec_u64_to_le_bytes(out));
        assert(spec_u64_to_le_bytes(block) == last);
        assert(data =~= front + last);
    } else {
        assert(data =~= Seq::<u8>::empty());
    }
}

} // verus!
