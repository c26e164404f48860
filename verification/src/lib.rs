//! Primitives for Bitcoin-style transaction data: hexadecimal text and raw
//! bytes, byte order, satoshi amounts, locking-script patterns, opcodes and
//! unspent outputs.
//!
//! Every function carries a contract over mathematical models (`Seq<u8>` for
//! byte buffers, `Seq<char>` for text) and is verified against it.

pub mod amount;
pub mod ascii;
pub mod codec;
pub mod endian;
pub mod opcode;
pub mod script;
pub mod utxo;
pub mod wallet;

pub use amount::parse_satoshis;
pub use codec::{bytes_to_hex, decode_hex, hex_to_bytes, DecodeError};
pub use endian::{swap_endian_u32, to_big_endian};
pub use opcode::Opcode;
pub use script::{classify_script, classify_script_with, read_pushdata, ClassifierRule, ScriptType};
pub use utxo::{consume_utxo, move_txid, Outpoint, UTXOfunc, UTXO};
pub use wallet::{apply_fee, FeeError, TestWallet, Wallet};
