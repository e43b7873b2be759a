use lora_driver::hex::{decode_hex, encode_hex, HexError};
use lora_driver::types::LoraMode;

#[test]
fn encode_renders_two_lower_case_digits_for_each_byte() {
    assert_eq!(encode_hex(&[]), "");
    assert_eq!(encode_hex(&[0x00]), "00");
    assert_eq!(encode_hex(&[0x0f]), "0f");
    assert_eq!(encode_hex(&[0xf0]), "f0");
    assert_eq!(encode_hex(&[0x09, 0x0a, 0x99, 0xaa, 0xff]), "090a99aaff");
}

#[test]
fn decode_reads_the_high_digit_first() {
    assert_eq!(decode_hex::<1>("10"), Ok([0x10]));
    assert_eq!(decode_hex::<1>("01"), Ok([0x01]));
    assert_eq!(decode_hex::<2>("aBcD"), Ok([0xab, 0xcd]));
    assert_eq!(decode_hex::<3>("09af9F"), Ok([0x09, 0xaf, 0x9f]));
}

#[test]
fn decode_of_no_bytes_takes_the_empty_text_only() {
    assert_eq!(decode_hex::<0>(""), Ok([]));
    assert_eq!(decode_hex::<0>("0"), Err(HexError::Length));
    assert_eq!(decode_hex::<0>("00"), Err(HexError::Length));
}

#[test]
fn decode_refuses_by_length_before_it_looks_at_the_digits() {
    assert_eq!(decode_hex::<2>("zz"), Err(HexError::Length));
    assert_eq!(decode_hex::<2>("zzzzzz"), Err(HexError::Length));
    assert_eq!(decode_hex::<2>("zzzz"), Err(HexError::Digit));
    assert_eq!(decode_hex::<2>("000z"), Err(HexError::Digit));
    assert_eq!(decode_hex::<2>("z000"), Err(HexError::Digit));
}

#[test]
fn every_byte_value_comes_back_from_its_text() {
    for b in 0..=255u8 {
        let text = encode_hex(&[b]);
        assert_eq!(text.len(), 2);
        assert_eq!(decode_hex::<1>(&text), Ok([b]));
        assert_eq!(decode_hex::<1>(&text.to_uppercase()), Ok([b]));
    }
}

#[test]
fn mode_codes_are_zero_and_one() {
    assert_eq!(LoraMode::WAN.code(), 0);
    assert_eq!(LoraMode::P2P.code(), 1);
}
