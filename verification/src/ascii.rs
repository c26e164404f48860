//! Text as bytes. A `&str` is read through its UTF-8 bytes, while contracts
//! speak of its characters; for ASCII text the two agree, byte for
//! character, and text whose bytes are all below `0x80` is ASCII.

use vstd::prelude::*;
use vstd::utf8::*;

verus! {

/// The bytes of ASCII text are its characters, one byte each.
pub proof fn lemma_ascii_bytes(text: Seq<char>)
    requires
        is_ascii_chars(text),
    ensures
        encode_utf8(text).len() == text.len(),
        forall|i: int| 0 <= i < text.len() ==> #[trigger] encode_utf8(text)[i] == text[i] as u8,
        forall|i: int|
            0 <= i < text.len() ==> (#[trigger] encode_utf8(text)[i]) as int == text[i] as int,
{
    is_ascii_chars_encode_utf8(text);
    assert forall|i: int| 0 <= i < text.len() implies (#[trigger] encode_utf8(text)[i]) as int
        == text[i] as int by {
        assert(encode_utf8(text)[i] == text[i] as u8);
        assert('\0' <= text[i] <= '\u{7f}');
    }
}

/// The first byte of the encoding of a character outside ASCII is `0xc0` or
/// above.
proof fn lemma_leading_byte_of_wide_scalar(scalar: u32)
    requires
        is_scalar(scalar),
        !has_width_1_encoding(scalar),
    ensures
        encode_scalar(scalar).len() >= 1,
        encode_scalar(scalar)[0] >= 0xc0,
{
    let two: u8 = ((scalar >> 6) & 0x1F) as u8;
    let three: u8 = ((scalar >> 12) & 0x0F) as u8;
    let four: u8 = ((scalar >> 18) & 0x7) as u8;
    assert(0xC0u8 | two >= 0xc0) by (bit_vector);
    assert(0xE0u8 | three >= 0xc0) by (bit_vector);
    assert(0xF0u8 | four >= 0xc0) by (bit_vector);
}

/// Text none of whose bytes reaches `0x80` is ASCII.
pub proof fn lemma_low_bytes_are_ascii(text: Seq<char>)
    requires
        forall|i: int| 0 <= i < encode_utf8(text).len() ==> #[trigger] encode_utf8(text)[i] < 0x80,
    ensures
        is_ascii_chars(text),
    decreases text.len(),
{
    if text.len() > 0 {
        let first: u32 = text[0] as u32;
        let rest: Seq<char> = text.drop_first();
        let head: Seq<u8> = encode_scalar(first);
        let tail: Seq<u8> = encode_utf8(rest);
        assert(encode_utf8(text) == head + tail);
        char_is_scalar(text[0]);
        if !has_width_1_encoding(first) {
            lemma_leading_byte_of_wide_scalar(first);
            assert(encode_utf8(text)[0] == head[0]);
            assert(false);
        }
        assert(head.len() == 1);
        assert forall|i: int| 0 <= i < tail.len() implies #[trigger] tail[i] < 0x80 by {
            assert(encode_utf8(text)[i + 1] == tail[i]);
        }
        lemma_low_bytes_are_ascii(rest);
        assert forall|i: int| 0 <= i < text.len() implies '\0' <= #[trigger] text[i]
            <= '\u{7f}' by {
            if i > 0 {
                assert(text[i] == rest[i - 1]);
            } else {
                char_u32_cast(text[0], first);
                assert(first as char == text[0]);
            }
        }
    }
}

} // verus!
