//! Byte order: reversing a buffer, and the bytes of a 32-bit integer.

use vstd::prelude::*;

verus! {

/// Returns the bytes of `bytes` in the opposite order.
pub fn to_big_endian(bytes: &[u8]) -> (reversed: Vec<u8>)
    ensures
        reversed@ == bytes@.reverse(),
{
    let n: usize = bytes.len();
    let mut reversed: Vec<u8> = Vec::with_capacity(n);
    let mut i: usize = n;
    while i > 0
        invariant
            n == bytes@.len(),
            i <= n,
            reversed@.len() == n - i,
            forall|k: int| 0 <= k < n - i ==> reversed@[k] == bytes@[n - 1 - k],
        decreases i,
    {
        i = i - 1;
        reversed.push(bytes[i]);
    }
    assert(reversed@ =~= bytes@.reverse());
    reversed
}

/// Reversing twice gives the buffer back, and the reverse of the empty
/// buffer is empty.
pub proof fn lemma_reverse_involution(bytes: Seq<u8>)
    ensures
        bytes.reverse().reverse() == bytes,
        bytes.reverse().len() == bytes.len(),
        Seq::<u8>::empty().reverse() == Seq::<u8>::empty(),
{
    assert(bytes.reverse().reverse() =~= bytes);
    assert(Seq::<u8>::empty().reverse() =~= Seq::<u8>::empty());
}

/// The four bytes of `n`, most significant first.
pub open spec fn be_bytes_of(n: u32) -> Seq<u8> {
    seq![
        (n / 0x100_0000) as u8,
        (n / 0x1_0000 % 0x100) as u8,
        (n / 0x100 % 0x100) as u8,
        (n % 0x100) as u8,
    ]
}

/// The four bytes of `n`, least significant first.
pub open spec fn le_bytes_of(n: u32) -> Seq<u8> {
    seq![
        (n % 0x100) as u8,
        (n / 0x100 % 0x100) as u8,
        (n / 0x1_0000 % 0x100) as u8,
        (n / 0x100_0000) as u8,
    ]
}

/// The number that four bytes stand for when the first is the least
/// significant.
pub open spec fn u32_of_le_bytes(bytes: Seq<u8>) -> int {
    bytes[0] + 0x100 * bytes[1] + 0x1_0000 * bytes[2] + 0x100_0000 * bytes[3]
}

/// The big-endian bytes read backwards are the little-endian bytes, and they
/// stand for the number they were made from.
pub proof fn lemma_be_reversed_is_le(n: u32)
    ensures
        be_bytes_of(n).reverse() == le_bytes_of(n),
        u32_of_le_bytes(le_bytes_of(n)) == n,
{
    assert(be_bytes_of(n).reverse() =~= le_bytes_of(n));
}

/// Renders `n` most significant byte first.
fn be_bytes(n: u32) -> (bytes: [u8; 4])
    ensures
        bytes@ == be_bytes_of(n),
{
    let b0: u8 = (n >> 24) as u8;
    let b1: u8 = ((n >> 16) & 0xff) as u8;
    let b2: u8 = ((n >> 8) & 0xff) as u8;
    let b3: u8 = (n & 0xff) as u8;
    assert(n >> 24 == n / 0x100_0000 && (n >> 24) < 0x100) by (bit_vector);
    assert((n >> 16) & 0xff == n / 0x1_0000 % 0x100) by (bit_vector);
    assert((n >> 8) & 0xff == n / 0x100 % 0x100) by (bit_vector);
    assert(n & 0xff == n % 0x100) by (bit_vector);
    let bytes: [u8; 4] = [b0, b1, b2, b3];
    assert(bytes@ =~= be_bytes_of(n));
    bytes
}

/// Renders `n` in big-endian order and reverses the four bytes: the result
/// is the little-endian encoding of `n`.
pub fn swap_endian_u32(num: u32) -> (bytes: [u8; 4])
    ensures
        bytes@ == be_bytes_of(num).reverse(),
        bytes@ == le_bytes_of(num),
{
    let version: [u8; 4] = be_bytes(num);
    let bytes: [u8; 4] = [version[3], version[2], version[1], version[0]];
    assert(bytes@ =~= be_bytes_of(num).reverse());
    assert(bytes@ =~= le_bytes_of(num));
    bytes
}

} // verus!
