//! Hexadecimal text and raw bytes.
//!
//! Encoding is done here; decoding is the work of the `hex` crate, whose
//! result is stated by [`hex_decoding`].

use vstd::prelude::*;
use vstd::utf8::*;

use crate::ascii::{lemma_ascii_bytes, lemma_low_bytes_are_ascii};

verus! {

/// Why hexadecimal text was not decoded. The variants are those of the
/// codec's own error.
#[derive(Debug, Clone, Copy, PartialEq, Eq, Structural)]
pub enum DecodeError {
    /// A byte of the text is no hexadecimal digit: `c` is that byte as a
    /// character, `index` its offset in the bytes of the text.
    InvalidHexCharacter { c: char, index: usize },
    /// The text has an odd number of bytes.
    OddLength,
    /// The text does not have the length of the container it is decoded
    /// into. Decoding into a vector never gives this.
    InvalidStringLength,
}

/// The value of the hexadecimal digit with character code `code`, in either
/// case, and `None` for any other code.
pub open spec fn hex_value_of_code(code: int) -> Option<int> {
    if 0x30 <= code <= 0x39 {
        Some(code - 0x30)
    } else if 0x61 <= code <= 0x66 {
        Some(code - 0x61 + 10)
    } else if 0x41 <= code <= 0x46 {
        Some(code - 0x41 + 10)
    } else {
        None
    }
}

/// Whether the byte is a hexadecimal digit, in either case.
pub open spec fn is_hex_byte(b: u8) -> bool {
    hex_value_of_code(b as int) is Some
}

/// Whether the character is a hexadecimal digit, in either case.
pub open spec fn is_hex_char(c: char) -> bool {
    hex_value_of_code(c as int) is Some
}

/// Whether the character is a decimal digit or one of `a` to `f`.
pub open spec fn is_lower_hex_char(c: char) -> bool {
    '0' <= c <= '9' || 'a' <= c <= 'f'
}

/// The byte that the two digits with codes `high` and `low` stand for.
pub open spec fn byte_of_digits(high: int, low: int) -> u8 {
    (16 * hex_value_of_code(high).unwrap() + hex_value_of_code(low).unwrap()) as u8
}

/// The lowercase hexadecimal digit of value `v`, for `v` below 16.
pub open spec fn lower_hex_digit(v: int) -> char {
    if v < 10 {
        (0x30 + v) as char
    } else {
        (0x61 + v - 10) as char
    }
}

/// The hexadecimal text of `bytes`: two lowercase digits for each byte, the
/// high half first, in the order of the bytes.
pub open spec fn hex_encoding(bytes: Seq<u8>) -> Seq<char> {
    Seq::new(
        2 * bytes.len(),
        |i: int|
            if i % 2 == 0 {
                lower_hex_digit(bytes[i / 2] as int / 16)
            } else {
                lower_hex_digit(bytes[i / 2] as int % 16)
            },
    )
}

/// `String::push` appends one character to the end of the string.
pub assume_specification[ String::push ](s: &mut String, ch: char)
    ensures
        final(s)@ == old(s)@.push(ch),
;

/// The lowercase digit of a half-byte.
fn lower_hex_char(v: u8) -> (c: char)
    requires
        v < 16,
    ensures
        c == lower_hex_digit(v as int),
{
    if v < 10 {
        (0x30 + v) as char
    } else {
        (0x57 + v) as char
    }
}

/// Renders bytes as lowercase hexadecimal text. Never fails.
pub fn bytes_to_hex(bytes: &[u8]) -> (text: String)
    ensures
        text@ == hex_encoding(bytes@),
{
    let n: usize = bytes.len();
    let mut text: String = String::new();
    let mut i: usize = 0;
    while i < n
        invariant
            n == bytes@.len(),
            i <= n,
            text@.len() == 2 * i,
            forall|k: int| 0 <= k < 2 * i ==> text@[k] == hex_encoding(bytes@)[k],
        decreases n - i,
    {
        let b: u8 = bytes[i];
        text.push(lower_hex_char(b / 16));
        text.push(lower_hex_char(b % 16));
        i = i + 1;
    }
    assert(text@ =~= hex_encoding(bytes@));
    text
}

/// Whether every byte of `text` is a hexadecimal digit.
pub open spec fn all_hex_bytes(text: Seq<u8>) -> bool {
    forall|i: int| 0 <= i < text.len() ==> is_hex_byte(#[trigger] text[i])
}

/// How many hexadecimal digits `text` begins with. Where not all of `text`
/// is digits, this is the offset of its first byte that is none.
pub open spec fn leading_hex_digits(text: Seq<u8>) -> int
    decreases text.len(),
{
    if text.len() == 0 || !is_hex_byte(text[0]) {
        0
    } else {
        1 + leading_hex_digits(text.drop_first())
    }
}

/// The bytes that an even number of hexadecimal digits stand for: each pair
/// of digits is one byte, the first digit its high half.
pub open spec fn bytes_of_digits(text: Seq<u8>) -> Seq<u8> {
    Seq::new(
        text.len() / 2,
        |i: int| byte_of_digits(text[2 * i] as int, text[2 * i + 1] as int),
    )
}

/// What decoding the bytes `text` gives. Text of odd length is refused
/// first; then the first byte that is no digit is reported, with its offset;
/// text that is all digits decodes to [`bytes_of_digits`].
pub open spec fn hex_decoding(text: Seq<u8>) -> Result<Seq<u8>, DecodeError> {
    if text.len() % 2 != 0 {
        Err(DecodeError::OddLength)
    } else if all_hex_bytes(text) {
        Ok(bytes_of_digits(text))
    } else {
        let i = leading_hex_digits(text);
        Err(DecodeError::InvalidHexCharacter { c: text[i] as char, index: i as usize })
    }
}

/// What came out of a decoding, with the bytes as a sequence.
pub open spec fn decoded_model(r: Result<Vec<u8>, DecodeError>) -> Result<Seq<u8>, DecodeError> {
    match r {
        Ok(bytes) => Ok(bytes@),
        Err(e) => Err(e),
    }
}

/// `hex::decode` on a byte slice. The crate refuses a slice of odd length
/// with `OddLength`; else it takes the bytes in pairs, and at the first byte
/// that is none of `0-9`, `a-f`, `A-F` it stops with `InvalidHexCharacter`,
/// which holds that byte as a character and its offset; else each pair gives
/// the byte `16 * high + low`. It never gives `InvalidStringLength`.
#[verifier::external_body]
fn codec_decode(text: &[u8]) -> (r: Result<Vec<u8>, DecodeError>)
    ensures
        decoded_model(r) == hex_decoding(text@),
{
    match hex::decode(text) {
        Ok(bytes) => Ok(bytes),
        Err(hex::FromHexError::InvalidHexCharacter { c, index }) => Err(
            DecodeError::InvalidHexCharacter { c, index },
        ),
        Err(hex::FromHexError::OddLength) => Err(DecodeError::OddLength),
        Err(hex::FromHexError::InvalidStringLength) => Err(DecodeError::InvalidStringLength),
    }
}

/// Whether `text` is hexadecimal text: an even number of characters, each a
/// hexadecimal digit in either case.
pub open spec fn is_hex_text(text: Seq<char>) -> bool {
    &&& text.len() % 2 == 0
    &&& forall|i: int| 0 <= i < text.len() ==> is_hex_char(#[trigger] text[i])
}

/// Whether `text` is hexadecimal text without capital letters.
pub open spec fn is_lower_hex_text(text: Seq<char>) -> bool {
    &&& text.len() % 2 == 0
    &&& forall|i: int| 0 <= i < text.len() ==> is_lower_hex_char(#[trigger] text[i])
}

/// The bytes that hexadecimal text stands for.
pub open spec fn hex_text_value(text: Seq<char>) -> Seq<u8> {
    Seq::new(
        text.len() / 2,
        |i: int| byte_of_digits(text[2 * i] as int, text[2 * i + 1] as int),
    )
}

/// The bytes before offset [`leading_hex_digits`] are digits, and the byte
/// at that offset, if there is one, is none.
pub proof fn lemma_leading_hex_digits(text: Seq<u8>)
    ensures
        0 <= leading_hex_digits(text) <= text.len(),
        forall|j: int| 0 <= j < leading_hex_digits(text) ==> is_hex_byte(#[trigger] text[j]),
        leading_hex_digits(text) < text.len() ==> !is_hex_byte(text[leading_hex_digits(text)]),
        all_hex_bytes(text) <==> leading_hex_digits(text) == text.len(),
    decreases text.len(),
{
    if text.len() > 0 && is_hex_byte(text[0]) {
        let rest = text.drop_first();
        lemma_leading_hex_digits(rest);
        let n = leading_hex_digits(rest);
        assert forall|j: int| 0 <= j < n + 1 implies is_hex_byte(#[trigger] text[j]) by {
            if j > 0 {
                assert(text[j] == rest[j - 1]);
            }
        }
        if n < rest.len() {
            assert(text[n + 1] == rest[n]);
        }
    }
}

/// Hexadecimal text has one byte for each character, all of them digits,
/// and decodes to the bytes it stands for; text that is not hexadecimal is
/// refused.
pub proof fn lemma_decoding_of_text(text: Seq<char>)
    ensures
        is_hex_text(text) <==> hex_decoding(encode_utf8(text)) is Ok,
        is_hex_text(text) ==> hex_decoding(encode_utf8(text)) == Ok::<Seq<u8>, DecodeError>(
            hex_text_value(text),
        ),
{
    let bytes = encode_utf8(text);
    if is_hex_text(text) {
        assert(is_ascii_chars(text));
        lemma_ascii_bytes(text);
        assert(all_hex_bytes(bytes)) by {
            assert forall|i: int| 0 <= i < bytes.len() implies is_hex_byte(#[trigger] bytes[i]) by {
                assert(is_hex_char(text[i]));
            }
        }
        assert(bytes_of_digits(bytes) =~= hex_text_value(text));
    }
    if hex_decoding(bytes) is Ok {
        assert(all_hex_bytes(bytes));
        assert forall|i: int| 0 <= i < bytes.len() implies #[trigger] bytes[i] < 0x80 by {
            assert(is_hex_byte(bytes[i]));
        }
        lemma_low_bytes_are_ascii(text);
        lemma_ascii_bytes(text);
        assert forall|i: int| 0 <= i < text.len() implies is_hex_char(#[trigger] text[i]) by {
            assert(is_hex_byte(bytes[i]));
        }
    }
}

/// Decodes hexadecimal text into bytes. Digits of either case are taken.
///
/// The text is read through its UTF-8 bytes, and the result is the codec's:
/// [`hex_decoding`] of those bytes. It is `Ok` exactly for hexadecimal text,
/// and then holds the bytes that the text stands for.
pub fn hex_to_bytes(hex: &str) -> (r: Result<Vec<u8>, DecodeError>)
    ensures
        decoded_model(r) == hex_decoding(encode_utf8(hex@)),
        r is Ok <==> is_hex_text(hex@),
        r matches Ok(bytes) ==> bytes@ == hex_text_value(hex@),
{
    proof {
        lemma_decoding_of_text(hex@);
    }
    codec_decode(hex.as_bytes())
}

/// The text that the `hex` crate prints for a byte that is no digit: it
/// holds the byte as a character in Rust's debug form and its offset in
/// decimal.
pub uninterp spec fn invalid_character_text(c: char, index: usize) -> Seq<char>;

/// The text that the `hex` crate prints for a decoding error.
pub open spec fn decode_error_text(e: DecodeError) -> Seq<char> {
    match e {
        DecodeError::InvalidHexCharacter { c, index } => invalid_character_text(c, index),
        DecodeError::OddLength => "Odd number of digits"@,
        DecodeError::InvalidStringLength => "Invalid string length"@,
    }
}

/// The `Display` text of `hex::FromHexError`, for the error of the same
/// variant and fields. Two of the three texts are fixed; the third is
/// [`invalid_character_text`] of the two fields.
#[verifier::external_body]
fn codec_error_text(e: &DecodeError) -> (text: String)
    ensures
        match *e {
            DecodeError::InvalidHexCharacter { c, index } => text@ == invalid_character_text(
                c,
                index,
            ),
            DecodeError::OddLength => text@ == "Odd number of digits"@,
            DecodeError::InvalidStringLength => text@ == "Invalid string length"@,
        },
{
    let outside = match *e {
        DecodeError::InvalidHexCharacter { c, index } => hex::FromHexError::InvalidHexCharacter {
            c,
            index,
        },
        DecodeError::OddLength => hex::FromHexError::OddLength,
        DecodeError::InvalidStringLength => hex::FromHexError::InvalidStringLength,
    };
    outside.to_string()
}

impl DecodeError {
    /// The codec's message for this error.
    pub fn message(&self) -> (text: String)
        ensures
            text@ == decode_error_text(*self),
    {
        codec_error_text(self)
    }
}

/// Decodes hexadecimal text into bytes, as [`hex_to_bytes`] does, and
/// reports an error by the codec's message for it.
pub fn decode_hex(hex_str: &str) -> (r: Result<Vec<u8>, String>)
    ensures
        match hex_decoding(encode_utf8(hex_str@)) {
            Ok(bytes) => r is Ok && r->Ok_0@ == bytes,
            Err(e) => r is Err && r->Err_0@ == decode_error_text(e),
        },
        r is Ok <==> is_hex_text(hex_str@),
        r matches Ok(bytes) ==> bytes@ == hex_text_value(hex_str@),
{
    match hex_to_bytes(hex_str) {
        Ok(bytes) => Ok(bytes),
        Err(e) => Err(e.message()),
    }
}

/// The lowercase form of a character: a capital ASCII letter becomes its
/// small letter, and every other character stays.
pub open spec fn to_lower(c: char) -> char {
    if 'A' <= c <= 'Z' {
        (c as int + 0x20) as char
    } else {
        c
    }
}

/// The text with each character in its lowercase form.
pub open spec fn lowercase(text: Seq<char>) -> Seq<char> {
    Seq::new(text.len(), |i: int| to_lower(text[i]))
}

/// A character is the character of its own code.
proof fn char_range(c: char)
    ensures
        (c as int) as char == c,
        0 <= c as int <= 0x10ffff,
{
    char_u32_cast(c, c as u32);
    char_is_scalar(c);
}

/// Decoding undoes encoding: the hexadecimal text of any bytes is lowercase
/// hexadecimal text, and it decodes to those bytes.
pub proof fn lemma_decode_of_encoding(bytes: Seq<u8>)
    ensures
        is_lower_hex_text(hex_encoding(bytes)),
        is_hex_text(hex_encoding(bytes)),
        hex_text_value(hex_encoding(bytes)) == bytes,
        hex_decoding(encode_utf8(hex_encoding(bytes))) == Ok::<Seq<u8>, DecodeError>(bytes),
{
    let text = hex_encoding(bytes);
    assert forall|i: int| 0 <= i < text.len() implies is_lower_hex_char(#[trigger] text[i])
        && is_hex_char(text[i]) by {
        let b = bytes[i / 2];
        assert(0 <= b as int / 16 < 16 && 0 <= b as int % 16 < 16);
    }
    assert(hex_text_value(text) =~= bytes) by {
        assert forall|i: int| 0 <= i < bytes.len() implies hex_text_value(text)[i] == bytes[i] by {
            let b = bytes[i];
            assert(text[2 * i] == lower_hex_digit(b as int / 16));
            assert(text[2 * i + 1] == lower_hex_digit(b as int % 16));
            assert(0 <= b as int / 16 < 16 && 0 <= b as int % 16 < 16);
        }
    }
    lemma_decoding_of_text(text);
}

/// Encoding undoes decoding, up to case: the bytes of hexadecimal text
/// encode to that text in lowercase.
pub proof fn lemma_encoding_of_decoded(text: Seq<char>)
    requires
        is_hex_text(text),
    ensures
        hex_decoding(encode_utf8(text)) == Ok::<Seq<u8>, DecodeError>(hex_text_value(text)),
        hex_encoding(hex_text_value(text)) == lowercase(text),
{
    let bytes = hex_text_value(text);
    let again = hex_encoding(bytes);
    assert(again =~= lowercase(text)) by {
        assert forall|k: int| 0 <= k < text.len() implies again[k] == to_lower(text[k]) by {
            let i = k / 2;
            assert(is_hex_char(text[2 * i]) && is_hex_char(text[2 * i + 1]));
            let high = hex_value_of_code(text[2 * i] as int).unwrap();
            let low = hex_value_of_code(text[2 * i + 1] as int).unwrap();
            assert(bytes[i] == 16 * high + low);
            assert(bytes[i] as int / 16 == high && bytes[i] as int % 16 == low);
            char_range(text[k]);
        }
    }
    lemma_decoding_of_text(text);
}

/// Encoding undoes decoding of lowercase text: hexadecimal text without
/// capital letters decodes, and its bytes encode to the same text.
pub proof fn lemma_encoding_of_decoded_lowercase(text: Seq<char>)
    requires
        is_lower_hex_text(text),
    ensures
        is_hex_text(text),
        hex_decoding(encode_utf8(text)) == Ok::<Seq<u8>, DecodeError>(hex_text_value(text)),
        hex_encoding(hex_text_value(text)) == text,
{
    assert forall|i: int| 0 <= i < text.len() implies is_hex_char(#[trigger] text[i]) by {
        assert(is_lower_hex_char(text[i]));
    }
    lemma_encoding_of_decoded(text);
    assert(lowercase(text) =~= text);
}

} // verus!
