use tudu::display::hex::{hex_value, HexColor, HexColorError};

#[test]
fn test_from_hex_long_format() {
    let color = HexColor::from_hex("#3A5857").unwrap();
    assert_eq!(color.r, 58);
    assert_eq!(color.g, 88);
    assert_eq!(color.b, 87);
}

#[test]
fn test_from_hex_short_format() {
    let color = HexColor::from_hex("#f00").unwrap();
    assert_eq!(color.r, 255);
    assert_eq!(color.g, 0);
    assert_eq!(color.b, 0);
}

#[test]
fn test_from_hex_without_hash() {
    let color = HexColor::from_hex("00ff00").unwrap();
    assert_eq!(color.r, 0);
    assert_eq!(color.g, 255);
    assert_eq!(color.b, 0);
}

#[test]
fn test_to_hex() {
    let color = HexColor::new(255, 128, 64);
    assert_eq!(color.to_hex(), "#ff8040");
}

#[test]
fn test_to_rgb() {
    let color = HexColor::new(255, 128, 64);
    assert_eq!(color.to_rgb(), (255, 128, 64));
}

#[test]
fn test_invalid_length() {
    assert!(matches!(
        HexColor::from_hex("#ff"),
        Err(HexColorError::InvalidLength)
    ));
    assert!(matches!(
        HexColor::from_hex("#ffff"),
        Err(HexColorError::InvalidLength)
    ));
}

#[test]
fn test_invalid_character() {
    assert!(matches!(
        HexColor::from_hex("#gggggg"),
        Err(HexColorError::InvalidCharacter)
    ));
}

#[test]
fn from_hex_short_digits_stand_for_themselves_twice() {
    assert_eq!(HexColor::from_hex("#1aF"), Ok(HexColor::new(0x11, 0xaa, 0xff)));
    assert_eq!(HexColor::from_hex("abc"), Ok(HexColor::new(0xaa, 0xbb, 0xcc)));
}

#[test]
fn from_hex_skips_every_leading_hash() {
    assert_eq!(HexColor::from_hex("###0a0B0c"), Ok(HexColor::new(10, 11, 12)));
    assert_eq!(HexColor::from_hex("#"), Err(HexColorError::InvalidLength));
    assert_eq!(HexColor::from_hex(""), Err(HexColorError::InvalidLength));
    assert_eq!(HexColor::from_hex("12#456"), Err(HexColorError::InvalidCharacter));
}

#[test]
fn from_hex_counts_bytes_not_characters() {
    // Two characters in three bytes, and four in six.
    assert_eq!(HexColor::from_hex("\u{e9}1"), Err(HexColorError::InvalidCharacter));
    assert_eq!(HexColor::from_hex("#\u{e9}\u{e9}ab"), Err(HexColorError::InvalidCharacter));
    // Three characters in four bytes, and six in seven.
    assert_eq!(HexColor::from_hex("a\u{e9}b"), Err(HexColorError::InvalidLength));
    assert_eq!(HexColor::from_hex("#12345\u{e9}"), Err(HexColorError::InvalidLength));
    assert_eq!(HexColor::from_hex("1234567"), Err(HexColorError::InvalidLength));
    assert_eq!(HexColor::from_hex("\u{1F680}12"), Err(HexColorError::InvalidCharacter));
}

#[test]
fn to_hex_pads_and_uses_lower_case() {
    assert_eq!(HexColor::new(0, 0, 0).to_hex(), "#000000");
    assert_eq!(HexColor::new(1, 10, 171).to_hex(), "#010aab");
    assert_eq!(HexColor::new(255, 255, 255).to_hex(), "#ffffff");
}

#[test]
fn to_hex_and_from_hex_are_inverse() {
    for (r, g, b) in [(0u8, 0u8, 0u8), (18, 52, 86), (255, 128, 64), (9, 160, 254)] {
        let color = HexColor::new(r, g, b);
        assert_eq!(HexColor::from_hex(&color.to_hex()), Ok(color));
    }
}

#[test]
fn hex_value_reads_both_cases() {
    assert_eq!(hex_value('0'), Some(0));
    assert_eq!(hex_value('9'), Some(9));
    assert_eq!(hex_value('a'), Some(10));
    assert_eq!(hex_value('F'), Some(15));
    assert_eq!(hex_value('g'), None);
    assert_eq!(hex_value('#'), None);
    assert_eq!(hex_value('\u{ff11}'), None);
}

#[test]
fn hex_color_error_messages() {
    assert_eq!(HexColorError::InvalidLength.message(), "Invalid hex color length");
    assert_eq!(HexColorError::InvalidCharacter.message(), "Invalid hex character");
    assert_eq!(HexColorError::ParseError.message(), "Failed to parse hex color");
}
