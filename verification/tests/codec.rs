use btc_primitives::{bytes_to_hex, decode_hex, hex_to_bytes, DecodeError};

#[test]
fn bytes_to_hex_writes_two_lowercase_digits_per_byte() {
    assert_eq!(bytes_to_hex(&[0x01, 0xab, 0xff]), "01abff");
    assert_eq!(bytes_to_hex(&[0x00]), "00");
    assert_eq!(bytes_to_hex(&[0x0f, 0xf0, 0x9a]), "0ff09a");
    assert_eq!(bytes_to_hex(b"Hello world!"), "48656c6c6f20776f726c6421");
}

#[test]
fn bytes_to_hex_of_nothing_is_empty() {
    assert_eq!(bytes_to_hex(&[]), "");
}

#[test]
fn decode_hex_reads_digits_of_either_case() {
    assert_eq!(decode_hex("01abff"), Ok(vec![0x01, 0xab, 0xff]));
    assert_eq!(decode_hex("01ABFF"), Ok(vec![0x01, 0xab, 0xff]));
    assert_eq!(decode_hex("f9B4Ca"), Ok(vec![0xf9, 0xb4, 0xca]));
    assert_eq!(decode_hex(""), Ok(vec![]));
}

#[test]
fn decode_hex_refuses_odd_length() {
    assert_eq!(decode_hex("123"), Err("Odd number of digits".to_string()));
    assert_eq!(decode_hex("a"), Err("Odd number of digits".to_string()));
}

#[test]
fn decode_hex_refuses_a_character_that_is_no_digit() {
    assert_eq!(
        decode_hex("0z"),
        Err("Invalid character 'z' at position 1".to_string())
    );
    assert_eq!(
        decode_hex("12 4"),
        Err("Invalid character ' ' at position 2".to_string())
    );
    assert_eq!(
        decode_hex("0x1234"),
        Err("Invalid character 'x' at position 1".to_string())
    );
}

#[test]
fn odd_length_is_reported_before_a_bad_character() {
    assert_eq!(hex_to_bytes("zzz"), Err(DecodeError::OddLength));
}

#[test]
fn hex_to_bytes_reports_the_first_bad_byte() {
    assert_eq!(
        hex_to_bytes("0z"),
        Err(DecodeError::InvalidHexCharacter { c: 'z', index: 1 })
    );
    assert_eq!(
        hex_to_bytes("abgh"),
        Err(DecodeError::InvalidHexCharacter { c: 'g', index: 2 })
    );
    assert_eq!(
        hex_to_bytes("g0h0"),
        Err(DecodeError::InvalidHexCharacter { c: 'g', index: 0 })
    );
}

#[test]
fn hex_to_bytes_reads_text_by_its_bytes() {
    // One character of two bytes: the length is even and the first byte is
    // no digit.
    assert_eq!(
        hex_to_bytes("\u{e9}"),
        Err(DecodeError::InvalidHexCharacter { c: '\u{c3}', index: 0 })
    );
    // Two characters, three bytes.
    assert_eq!(hex_to_bytes("\u{e9}a"), Err(DecodeError::OddLength));
    // Four characters, six bytes; the bad byte is behind two digits.
    assert_eq!(
        hex_to_bytes("ab\u{e9}\u{e9}"),
        Err(DecodeError::InvalidHexCharacter { c: '\u{c3}', index: 2 })
    );
}

#[test]
fn hex_to_bytes_decodes_valid_text() {
    assert_eq!(hex_to_bytes("00ff10"), Ok(vec![0x00, 0xff, 0x10]));
    assert_eq!(
        hex_to_bytes("48656c6c6f20776f726c6421"),
        Ok(b"Hello world!".to_vec())
    );
}

#[test]
fn decoding_undoes_encoding() {
    let all: Vec<u8> = (0..=255u8).collect();
    assert_eq!(decode_hex(&bytes_to_hex(&all)), Ok(all.clone()));
    assert_eq!(hex_to_bytes(&bytes_to_hex(&all)), Ok(all));
    let empty: Vec<u8> = Vec::new();
    assert_eq!(decode_hex(&bytes_to_hex(&empty)), Ok(empty));
    let some = vec![0xde, 0xad, 0xbe, 0xef, 0x00, 0x01];
    assert_eq!(decode_hex(&bytes_to_hex(&some)), Ok(some));
}

#[test]
fn encoding_undoes_decoding_of_lowercase_text() {
    for text in ["", "00", "deadbeef", "0123456789abcdef", "ffffffffffffffff"] {
        let bytes = decode_hex(text).unwrap();
        assert_eq!(bytes_to_hex(&bytes), text);
    }
}

#[test]
fn encoding_lowers_the_case_of_decoded_text() {
    let bytes = decode_hex("DeadBEEF0A").unwrap();
    assert_eq!(bytes_to_hex(&bytes), "deadbeef0a");
}

#[test]
fn decode_error_messages_are_the_codecs() {
    assert_eq!(DecodeError::OddLength.message(), "Odd number of digits");
    assert_eq!(
        DecodeError::InvalidStringLength.message(),
        "Invalid string length"
    );
    assert_eq!(
        DecodeError::InvalidHexCharacter { c: '\n', index: 5 }.message(),
        "Invalid character '\\n' at position 5"
    );
    assert_eq!(
        DecodeError::InvalidHexCharacter { c: 'g', index: 12 }.message(),
        "Invalid character 'g' at position 12"
    );
}

#[test]
fn decode_hex_message_is_that_of_the_typed_error() {
    for text in ["abc", "zz", "12 4", "\u{e9}", "0g"] {
        let typed = hex_to_bytes(text).unwrap_err();
        assert_eq!(decode_hex(text), Err(typed.message()));
    }
}
