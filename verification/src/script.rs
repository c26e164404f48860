//! Locking scripts: recognising the standard layouts and cutting out the
//! pushed data.

use vstd::prelude::*;
use vstd::slice::slice_subrange;

verus! {

/// The layout of a locking script.
#[derive(Debug, Clone, Copy, PartialEq, Eq, Structural)]
pub enum ScriptType {
    /// Pay to public-key hash.
    P2PKH,
    /// Pay to witness public-key hash.
    P2WPKH,
    /// None of the recognised layouts.
    Unknown,
}

/// Which rule a classification goes by.
#[derive(Debug, Clone, Copy, PartialEq, Eq, Structural)]
pub enum ClassifierRule {
    /// The full layout: length, leading opcodes and trailing opcodes.
    Canonical,
    /// Only the first three bytes are compared with a fixed pattern; the
    /// length and the rest of the script are not looked at.
    Prefix,
}

/// `OP_DUP`.
pub const OP_DUP: u8 = 0x76;

/// `OP_HASH160`.
pub const OP_HASH160: u8 = 0xa9;

/// The opcode that pushes the next 20 bytes.
pub const OP_PUSH20: u8 = 0x14;

/// `OP_EQUALVERIFY`.
pub const OP_EQUALVERIFY: u8 = 0x88;

/// `OP_CHECKSIG`.
pub const OP_CHECKSIG: u8 = 0xac;

/// `OP_0`, the witness version of a witness public-key hash.
pub const OP_0: u8 = 0x00;

/// Length of a pay-to-public-key-hash script.
pub const P2PKH_LEN: usize = 25;

/// Length of a pay-to-witness-public-key-hash script.
pub const P2WPKH_LEN: usize = 22;

/// A pay-to-public-key-hash script is exactly 25 bytes:
/// `OP_DUP OP_HASH160 OP_PUSH20 <20 bytes> OP_EQUALVERIFY OP_CHECKSIG`.
/// The 20 bytes of the hash are free.
pub open spec fn is_p2pkh(script: Seq<u8>) -> bool {
    &&& script.len() == P2PKH_LEN
    &&& script[0] == OP_DUP
    &&& script[1] == OP_HASH160
    &&& script[2] == OP_PUSH20
    &&& script[23] == OP_EQUALVERIFY
    &&& script[24] == OP_CHECKSIG
}

/// A pay-to-witness-public-key-hash script is exactly 22 bytes:
/// `OP_0 OP_PUSH20 <20 bytes>`. The 20 bytes of the hash are free.
pub open spec fn is_p2wpkh(script: Seq<u8>) -> bool {
    &&& script.len() == P2WPKH_LEN
    &&& script[0] == OP_0
    &&& script[1] == OP_PUSH20
}

/// The canonical classification: the layouts are tried in the order
/// pay-to-public-key-hash, pay-to-witness-public-key-hash, and what matches
/// neither is unknown.
pub open spec fn canonical_type(script: Seq<u8>) -> ScriptType {
    if is_p2pkh(script) {
        ScriptType::P2PKH
    } else if is_p2wpkh(script) {
        ScriptType::P2WPKH
    } else {
        ScriptType::Unknown
    }
}

/// Whether `script` begins with the three bytes `a`, `b`, `c`.
pub open spec fn has_prefix3(script: Seq<u8>, a: u8, b: u8, c: u8) -> bool {
    script.len() >= 3 && script[0] == a && script[1] == b && script[2] == c
}

/// The classification by prefix: a script that begins `76 a9 14` is
/// pay-to-public-key-hash, one that begins `00 14 ff` is
/// pay-to-witness-public-key-hash, whatever its length and whatever follows.
pub open spec fn prefix_type(script: Seq<u8>) -> ScriptType {
    if has_prefix3(script, OP_DUP, OP_HASH160, OP_PUSH20) {
        ScriptType::P2PKH
    } else if has_prefix3(script, OP_0, OP_PUSH20, 0xff) {
        ScriptType::P2WPKH
    } else {
        ScriptType::Unknown
    }
}

/// The classification of `script` under `rule`.
pub open spec fn script_type_under(rule: ClassifierRule, script: Seq<u8>) -> ScriptType {
    match rule {
        ClassifierRule::Canonical => canonical_type(script),
        ClassifierRule::Prefix => prefix_type(script),
    }
}

/// Classifies a locking script by the canonical rule.
pub fn classify_script(script: &[u8]) -> (kind: ScriptType)
    ensures
        kind == canonical_type(script@),
{
    let n: usize = script.len();
    if n == P2PKH_LEN && script[0] == OP_DUP && script[1] == OP_HASH160 && script[2] == OP_PUSH20
        && script[23] == OP_EQUALVERIFY && script[24] == OP_CHECKSIG {
        ScriptType::P2PKH
    } else if n == P2WPKH_LEN && script[0] == OP_0 && script[1] == OP_PUSH20 {
        ScriptType::P2WPKH
    } else {
        ScriptType::Unknown
    }
}

/// Classifies a locking script by the rule that the caller picks.
pub fn classify_script_with(script: &[u8], rule: ClassifierRule) -> (kind: ScriptType)
    ensures
        kind == script_type_under(rule, script@),
{
    match rule {
        ClassifierRule::Canonical => classify_script(script),
        ClassifierRule::Prefix => {
            if script.len() < 3 {
                ScriptType::Unknown
            } else if script[0] == OP_DUP && script[1] == OP_HASH160 && script[2] == OP_PUSH20 {
                ScriptType::P2PKH
            } else if script[0] == OP_0 && script[1] == OP_PUSH20 && script[2] == 0xff {
                ScriptType::P2WPKH
            } else {
                ScriptType::Unknown
            }
        },
    }
}

/// Every script that is pay-to-public-key-hash by the canonical rule is so by
/// the prefix rule too. The converse does not hold: the prefix rule takes any
/// script that begins `76 a9 14`.
pub proof fn lemma_canonical_p2pkh_has_prefix(script: Seq<u8>)
    requires
        canonical_type(script) == ScriptType::P2PKH,
    ensures
        prefix_type(script) == ScriptType::P2PKH,
{
}

/// What follows the two header bytes (opcode and length) of a script: the
/// script from offset 2 on, and nothing where the script has at most two
/// bytes.
pub open spec fn pushdata_of(script: Seq<u8>) -> Seq<u8> {
    if script.len() <= 2 {
        Seq::empty()
    } else {
        script.subrange(2, script.len() as int)
    }
}

/// Returns the pushed data of `script`, taking its first two bytes for an
/// opcode and a length. The length byte is not compared with the number of
/// bytes that follow.
pub fn read_pushdata(script: &[u8]) -> (data: &[u8])
    ensures
        data@ == pushdata_of(script@),
{
    let n: usize = script.len();
    if n <= 2 {
        slice_subrange(script, n, n)
    } else {
        slice_subrange(script, 2, n)
    }
}

} // verus!
