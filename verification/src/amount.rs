//! Amounts in satoshis, read from decimal text.

use vstd::prelude::*;
use vstd::utf8::*;

use crate::ascii::{lemma_ascii_bytes, lemma_low_bytes_are_ascii};

verus! {

/// Whether the character is one of `0` to `9`.
pub open spec fn is_decimal_char(c: char) -> bool {
    '0' <= c <= '9'
}

/// Whether `text` is a decimal numeral: at least one character, and decimal
/// digits only. A sign, a decimal point and white space are not digits.
pub open spec fn is_decimal_text(text: Seq<char>) -> bool {
    &&& text.len() > 0
    &&& forall|i: int| 0 <= i < text.len() ==> is_decimal_char(#[trigger] text[i])
}

/// The number that the digits of `text` spell in base ten. Leading zeros
/// add nothing.
pub open spec fn decimal_value(text: Seq<char>) -> nat
    decreases text.len(),
{
    if text.len() == 0 {
        0
    } else {
        (10 * decimal_value(text.drop_last()) + (text.last() as int - 0x30)) as nat
    }
}

/// The amount that `text` spells, if it is a decimal numeral whose value
/// fits in 64 bits.
pub open spec fn satoshis_of(text: Seq<char>) -> Option<u64> {
    if is_decimal_text(text) && decimal_value(text) <= u64::MAX {
        Some(decimal_value(text) as u64)
    } else {
        None
    }
}

/// The message for text that spells no amount.
pub open spec fn invalid_amount_message() -> Seq<char> {
    "Invalid satoshi amount"@
}

/// A numeral is at least as large as each of its prefixes.
pub proof fn lemma_decimal_value_of_prefix(text: Seq<char>, k: int)
    requires
        0 <= k <= text.len(),
        forall|i: int| 0 <= i < text.len() ==> is_decimal_char(#[trigger] text[i]),
    ensures
        decimal_value(text.take(k)) <= decimal_value(text),
    decreases text.len() - k,
{
    if k < text.len() {
        let longer = text.take(k + 1);
        assert(longer.drop_last() =~= text.take(k));
        assert(is_decimal_char(text[k]));
        assert(longer.last() == text[k]);
        lemma_decimal_value_of_prefix(text, k + 1);
    } else {
        assert(text.take(k) =~= text);
    }
}

/// The error that every refused text gets.
fn invalid_amount() -> (r: Result<u64, String>)
    ensures
        r is Err,
        r->Err_0@ == invalid_amount_message(),
{
    Err("Invalid satoshi amount".to_owned())
}

/// Reads an amount in satoshis from decimal text.
///
/// The text is taken if it is a decimal numeral and its value fits in 64
/// bits; the empty text, a sign, a decimal point, white space and any other
/// character that is no digit are refused, and so is a value of 2^64 or
/// more. No other bound is put on the amount.
pub fn parse_satoshis(input: &str) -> (r: Result<u64, String>)
    ensures
        match satoshis_of(input@) {
            Some(amount) => r == Ok::<u64, String>(amount),
            None => r is Err && r->Err_0@ == invalid_amount_message(),
        },
{
    let bytes: &[u8] = input.as_bytes();
    let n: usize = bytes.len();
    let ghost text: Seq<char> = input@;
    if n == 0 {
        proof {
            lemma_low_bytes_are_ascii(text);
            lemma_ascii_bytes(text);
        }
        return invalid_amount();
    }
    let mut amount: u64 = 0;
    let mut i: usize = 0;
    while i < n
        invariant
            text == input@,
            bytes@ == encode_utf8(text),
            n == bytes@.len(),
            i <= n,
            forall|j: int| 0 <= j < i ==> 0x30 <= #[trigger] bytes@[j] <= 0x39,
            is_ascii_chars(text) ==> amount == decimal_value(text.take(i as int)),
            satoshis_of(text) is Some ==> is_ascii_chars(text),
        decreases n - i,
    {
        let b: u8 = bytes[i];
        proof {
            if is_ascii_chars(text) {
                lemma_ascii_bytes(text);
                assert(text.take(i + 1).drop_last() =~= text.take(i as int));
                assert(text.take(i + 1).last() == text[i as int]);
                assert(b as int == text[i as int] as int);
            }
        }
        if b < 0x30 || b > 0x39 {
            return invalid_amount();
        }
        let digit: u64 = (b - 0x30) as u64;
        proof {
            if is_decimal_text(text) {
                lemma_decimal_value_of_prefix(text, i + 1);
            }
        }
        let tens: Option<u64> = amount.checked_mul(10);
        let sum: Option<u64> = match tens {
            Some(tens) => tens.checked_add(digit),
            None => None,
        };
        match sum {
            Some(sum) => {
                amount = sum;
            },
            None => {
                return invalid_amount();
            },
        }
        i = i + 1;
    }
    proof {
        lemma_low_bytes_are_ascii(text);
        lemma_ascii_bytes(text);
        assert(text.take(n as int) =~= text);
        assert forall|j: int| 0 <= j < text.len() implies is_decimal_char(#[trigger] text[j]) by {
            assert(0x30 <= bytes@[j] <= 0x39);
            assert(encode_utf8(text)[j] as int == text[j] as int);
        }
    }
    Ok(amount)
}

} // verus!
