//! The opcode table: from a script byte to its symbolic name.

use vstd::prelude::*;

use crate::script::{OP_CHECKSIG, OP_DUP};

verus! {

/// A script opcode.
#[derive(Debug, Clone, Copy, PartialEq, Eq, Structural)]
pub enum Opcode {
    /// Checks a signature against a public key.
    OpChecksig,
    /// Duplicates the top stack item.
    OpDup,
    /// Stands for a byte without a name; the table itself never yields it.
    OpInvalid,
}

/// The opcode that `byte` names, if any.
pub open spec fn opcode_of(byte: u8) -> Option<Opcode> {
    if byte == OP_DUP {
        Some(Opcode::OpDup)
    } else if byte == OP_CHECKSIG {
        Some(Opcode::OpChecksig)
    } else {
        None
    }
}

/// The message for a byte without a name. It is the same for every such
/// byte and does not repeat the byte.
pub open spec fn unknown_opcode_message() -> Seq<char> {
    "Invalid opcode: 0x00"@
}

impl Opcode {
    /// Maps a script byte to its opcode: `0x76` is `OpDup`, `0xac` is
    /// `OpChecksig`, and every other byte is refused with
    /// [`unknown_opcode_message`].
    pub fn from_byte(byte: u8) -> (r: Result<Opcode, String>)
        ensures
            match opcode_of(byte) {
                Some(op) => r == Ok::<Opcode, String>(op),
                None => r is Err && r->Err_0@ == unknown_opcode_message(),
            },
    {
        if byte == OP_DUP {
            Ok(Opcode::OpDup)
        } else if byte == OP_CHECKSIG {
            Ok(Opcode::OpChecksig)
        } else {
            Err("Invalid opcode: 0x00".to_owned())
        }
    }
}

} // verus!
