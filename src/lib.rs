//! The DES block cipher, with its key schedule, its Feistel round and the
//! generic bit permutation that drives every table, each proved to compute
//! what its contract states; around it, codebook use over byte strings and the
//! reading of keys and blocks from text.
use vstd::prelude::*;

pub mod cipher;
pub mod cli;
pub mod ecb;
pub mod error;
pub mod key_schedule;
pub mod keys;
pub mod permutation;
pub mod tables;
pub mod value;

pub use cipher::Des;
pub use cli::{Args, Operation, OutputFormat};
pub use ecb::{decrypt_ecb, encrypt_ecb};
pub use error::{DesError, IntParseError};
pub use key_schedule::{concatenate_keys, generate_subkeys, pc1, pc2, shift, split_key};
pub use keys::{Block, Key, Subkey, Subkeys};
pub use permutation::permute;
pub use value::{ascii_string_to_u64, parse_string_to_u64, parse_trimmed, Value, ValueError};

verus! {

} // verus!
