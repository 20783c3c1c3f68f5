//! What a command line asks of the cipher, and the block it answers with.
use vstd::prelude::*;

use crate::cipher::{decrypt_block, encrypt_block, Des};
use crate::key_schedule::key_schedule;
use crate::value::Value;

verus! {

/// How a decrypted block is to be shown.
#[derive(Clone, Copy, Debug, PartialEq, Eq, Structural)]
pub enum OutputFormat {
    Binary,
    Octal,
    Decimal,
    Hex,
    Text,
}

impl Default for OutputFormat {
    fn default() -> (r: OutputFormat)
        ensures
            r == OutputFormat::Hex,
    {
        OutputFormat::Hex
    }
}

/// Encrypt or decrypt.
#[derive(Clone, Copy, Debug, PartialEq, Eq, Structural)]
pub enum Operation {
    Encrypt,
    Decrypt { output_format: Option<OutputFormat> },
}

impl Default for Operation {
    fn default() -> (r: Operation)
        ensures
            r == Operation::Encrypt,
    {
        Operation::Encrypt
    }
}

/// An operation, the key to use and the block to work on.
#[derive(Clone, Copy, Debug)]
pub struct Args {
    pub operation: Operation,
    pub key: Value,
    pub text: Value,
}

/// The block that `args` asks for.
pub open spec fn answer(args: Args) -> u64 {
    match args.operation {
        Operation::Encrypt => encrypt_block(key_schedule(args.key@), args.text@),
        Operation::Decrypt { .. } => decrypt_block(key_schedule(args.key@), args.text@),
    }
}

impl Args {
    /// Encrypts or decrypts the text under the key, as the operation says.
    pub fn execute(&self) -> (r: u64)
        ensures
            r == answer(*self),
    {
        let des = Des::new(self.key.as_64());
        match self.operation {
            Operation::Encrypt => des.encrypt(self.text.as_64()),
            Operation::Decrypt { .. } => des.decrypt(self.text.as_64()),
        }
    }
}

} // verus!
