//! Plain wrappers for a key, a round subkey, the sixteen subkeys of a cipher
//! and a block.
use vstd::prelude::*;

use crate::error::DesError;

verus! {

/// The largest 48-bit value.
pub const SUBKEY_MAX: u64 = 0xFFFF_FFFF_FFFF;

/// A 64-bit DES key, parity bits included.
#[derive(Clone, Copy, Debug, PartialEq, Eq, Structural)]
pub struct Key(u64);

impl View for Key {
    type V = u64;

    closed spec fn view(&self) -> u64 {
        self.0
    }
}

impl Key {
    /// The key as a plain integer.
    pub fn value(&self) -> (r: u64)
        ensures
            r == self@,
    {
        self.0
    }
}

impl From<u64> for Key {
    fn from(key: u64) -> (r: Key) {
        Key(key)
    }
}

impl vstd::std_specs::convert::FromSpecImpl<u64> for Key {
    open spec fn obeys_from_spec() -> bool {
        true
    }

    closed spec fn from_spec(v: u64) -> Key {
        Key(v)
    }
}

/// A 64-bit block of plaintext or ciphertext.
#[derive(Clone, Copy, Debug, Default, PartialEq, Eq, Structural)]
pub struct Block(u64);

impl View for Block {
    type V = u64;

    closed spec fn view(&self) -> u64 {
        self.0
    }
}

impl Block {
    /// The block as a plain integer.
    pub fn value(&self) -> (r: u64)
        ensures
            r == self@,
    {
        self.0
    }
}

impl From<u64> for Block {
    fn from(block: u64) -> (r: Block) {
        Block(block)
    }
}

impl vstd::std_specs::convert::FromSpecImpl<u64> for Block {
    open spec fn obeys_from_spec() -> bool {
        true
    }

    closed spec fn from_spec(v: u64) -> Block {
        Block(v)
    }
}

/// A 48-bit round subkey.
#[derive(Clone, Copy, Debug, PartialEq, Eq, Structural)]
pub struct Subkey(u64);

impl View for Subkey {
    type V = u64;

    closed spec fn view(&self) -> u64 {
        self.0
    }
}

/// The error for a value too wide for a 48-bit subkey.
pub open spec fn subkey_out_of_range(value: u64) -> DesError {
    DesError::KeyOutOfRange { value, max: SUBKEY_MAX, width: 48 }
}

impl Subkey {
    #[verifier::type_invariant]
    spec fn fits(self) -> bool {
        self.0 <= SUBKEY_MAX
    }

    /// A subkey holding `value`, or `KeyOutOfRange` when `value` needs more
    /// than 48 bits.
    pub fn try_from(value: u64) -> (r: Result<Subkey, DesError>)
        ensures
            value <= SUBKEY_MAX ==> r is Ok && r->Ok_0@ == value,
            value > SUBKEY_MAX ==> r == Err::<Subkey, DesError>(subkey_out_of_range(value)),
    {
        if value <= SUBKEY_MAX {
            Ok(Subkey(value))
        } else {
            Err(DesError::KeyOutOfRange { value, max: SUBKEY_MAX, width: 48 })
        }
    }

    /// The subkey as a plain integer, at most 48 bits wide.
    pub fn value(&self) -> (r: u64)
        ensures
            r == self@,
            r <= SUBKEY_MAX,
    {
        proof {
            use_type_invariant(self);
        }
        self.0
    }

    /// The subkey holds exactly `other`.
    pub fn equals_value(&self, other: &u64) -> (r: bool)
        ensures
            r == (self@ == *other),
    {
        self.0 == *other
    }
}

/// The sixteen subkeys of a cipher, round 1 first.
#[derive(Clone, Copy, Debug)]
pub struct Subkeys([Subkey; 16]);

impl View for Subkeys {
    type V = Seq<u64>;

    closed spec fn view(&self) -> Seq<u64> {
        self.0@.map_values(|k: Subkey| k@)
    }
}

impl Subkeys {
    /// The sixteen subkeys `keys`, or the `KeyOutOfRange` error of the first
    /// of them that needs more than 48 bits.
    pub fn try_from(keys: [u64; 16]) -> (r: Result<Subkeys, DesError>)
        ensures
            (forall|i: int| 0 <= i < 16 ==> #[trigger] keys@[i] <= SUBKEY_MAX) ==> (r is Ok
                && r->Ok_0@ == keys@),
            !(forall|i: int| 0 <= i < 16 ==> #[trigger] keys@[i] <= SUBKEY_MAX) ==> exists|
                i: int,
            |
                0 <= i < 16 && #[trigger] keys@[i] > SUBKEY_MAX && (forall|j: int|
                    0 <= j < i ==> keys@[j] <= SUBKEY_MAX) && r == Err::<Subkeys, DesError>(
                    subkey_out_of_range(keys@[i]),
                ),
    {
        let mut subkeys = [Subkey(0); 16];
        let mut i: usize = 0;
        while i < 16
            invariant
                i <= 16,
                forall|j: int| 0 <= j < i ==> keys@[j] <= SUBKEY_MAX,
                forall|j: int| 0 <= j < i ==> (#[trigger] subkeys@[j])@ == keys@[j],
            decreases 16 - i,
        {
            match Subkey::try_from(keys[i]) {
                Ok(k) => {
                    subkeys[i] = k;
                },
                Err(e) => {
                    assert(keys@[i as int] > SUBKEY_MAX);
                    return Err(e);
                },
            }
            i = i + 1;
        }
        let r = Subkeys(subkeys);
        assert(r@ =~= keys@);
        Ok(r)
    }

    /// The subkeys, round 1 first.
    pub fn as_ref(&self) -> (r: &[Subkey; 16])
        ensures
            r@.map_values(|k: Subkey| k@) == self@,
    {
        &self.0
    }
}

} // verus!
