//! Unspent transaction outputs and the references to them.

use vstd::prelude::*;

verus! {

/// A reference to an output of an earlier transaction: the transaction's id
/// as hexadecimal text, and the index of the output in it. Two references
/// are equal when both fields are.
#[derive(Debug, Eq, Clone)]
pub struct Outpoint(pub String, pub u32);

impl PartialEq for Outpoint {
    fn eq(&self, other: &Self) -> (equal: bool) {
        self.1 == other.1 && self.0 == other.0
    }
}

impl vstd::std_specs::cmp::PartialEqSpecImpl for Outpoint {
    open spec fn obeys_eq_spec() -> bool {
        true
    }

    open spec fn eq_spec(&self, other: &Self) -> bool {
        self.0@ == other.0@ && self.1 == other.1
    }
}

/// An unspent transaction output. Two outputs are equal when their three
/// fields are.
#[derive(Debug, Eq, Clone)]
pub struct UTXO {
    /// Id of the transaction that created the output.
    pub txid: Vec<u8>,
    /// Index of the output in that transaction.
    pub vout: u32,
    /// Value in satoshis.
    pub value: u64,
}

/// What a [`UTXO`] stands for: its three fields as plain values. Two outputs
/// are equal, by `==`, exactly when their models are.
pub struct UtxoModel {
    /// The bytes of the transaction id.
    pub txid: Seq<u8>,
    /// Index of the output.
    pub vout: u32,
    /// Value in satoshis.
    pub value: u64,
}

impl View for UTXO {
    type V = UtxoModel;

    open spec fn view(&self) -> UtxoModel {
        UtxoModel { txid: self.txid@, vout: self.vout, value: self.value }
    }
}

/// Whether two buffers hold the same bytes.
fn same_bytes(a: &[u8], b: &[u8]) -> (same: bool)
    ensures
        same == (a@ == b@),
{
    let n: usize = a.len();
    if b.len() != n {
        return false;
    }
    let mut i: usize = 0;
    while i < n
        invariant
            n == a@.len(),
            n == b@.len(),
            i <= n,
            forall|k: int| 0 <= k < i ==> a@[k] == b@[k],
        decreases n - i,
    {
        if a[i] != b[i] {
            return false;
        }
        i = i + 1;
    }
    assert(a@ =~= b@);
    true
}

impl PartialEq for UTXO {
    fn eq(&self, other: &Self) -> (equal: bool) {
        self.vout == other.vout && self.value == other.value && same_bytes(
            self.txid.as_slice(),
            other.txid.as_slice(),
        )
    }
}

impl vstd::std_specs::cmp::PartialEqSpecImpl for UTXO {
    open spec fn obeys_eq_spec() -> bool {
        true
    }

    open spec fn eq_spec(&self, other: &Self) -> bool {
        self@ == other@
    }
}

/// Something that can be spent.
pub trait UTXOfunc: Sized {
    /// Spends `self`: hands out the value that takes its place.
    fn depense(&self) -> Self;
}

impl UTXOfunc for UTXO {
    /// Spending an output yields an equal output that shares nothing with
    /// the first. The first is left as it was: taking it out of a set of
    /// unspent outputs is the caller's business.
    fn depense(&self) -> (spent: UTXO)
        ensures
            spent@ == self@,
    {
        UTXO { txid: self.txid.clone(), vout: self.vout, value: self.value }
    }
}

/// Consumes an unspent output and returns the spent one, which equals it
/// field by field. Nothing else changes: no set of unspent outputs is kept
/// here.
pub fn consume_utxo(utxo: UTXO) -> (spent: UTXO)
    ensures
        spent@ == utxo@,
{
    utxo.depense()
}

/// The label that precedes a transaction id in [`move_txid`].
pub open spec fn txid_label() -> Seq<char> {
    "txid: "@
}

/// Takes a transaction id and returns it behind the label `txid: `, for
/// display.
pub fn move_txid(txid: String) -> (line: String)
    ensures
        line@ == txid_label() + txid@,
{
    let mut line: String = "txid: ".to_owned();
    line.append(txid.as_str());
    line
}

} // verus!
