use tabula::color::{ColorError, Rgb};

#[test]
fn parses_hash_prefixed_color() {
    assert_eq!(Rgb::from_hex("#ff0000"), Ok(Rgb { r: 255, g: 0, b: 0 }));
}

#[test]
fn parses_color_without_prefix_and_mixed_case() {
    assert_eq!(Rgb::from_hex("12aBcD"), Ok(Rgb { r: 0x12, g: 0xab, b: 0xcd }));
    assert_eq!(Rgb::from_hex("#000000"), Ok(Rgb { r: 0, g: 0, b: 0 }));
    assert_eq!(Rgb::from_hex("FFFFFF"), Ok(Rgb { r: 255, g: 255, b: 255 }));
}

#[test]
fn rejects_wrong_length() {
    assert_eq!(Rgb::from_hex("#fff"), Err(ColorError::WrongLength));
    assert_eq!(Rgb::from_hex("ff00000"), Err(ColorError::WrongLength));
    assert_eq!(Rgb::from_hex(""), Err(ColorError::WrongLength));
    assert_eq!(Rgb::from_hex("#"), Err(ColorError::WrongLength));
    assert_eq!(Rgb::from_hex("##ff0000"), Err(ColorError::WrongLength));
    assert_eq!(ColorError::WrongLength.message(), "must contain exactly 6 hex digits");
}

#[test]
fn rejects_non_hex() {
    assert_eq!(Rgb::from_hex("#gg0000"), Err(ColorError::NotHex));
    assert_eq!(Rgb::from_hex("+fffff"), Err(ColorError::NotHex));
    assert_eq!(Rgb::from_hex("#12 456"), Err(ColorError::NotHex));
    assert_eq!(ColorError::NotHex.message(), "must only contain the characters 0-9 and a-f");
}

#[test]
fn channels_widen_to_full_range() {
    assert_eq!(Rgb::channel_to_u32(0), 0);
    assert_eq!(Rgb::channel_to_u32(255), u32::MAX);
    assert_eq!(Rgb::channel_to_u32(1), u32::MAX / 255);
}

#[test]
fn parses_through_from_str() {
    assert_eq!("#00ff80".parse::<Rgb>(), Ok(Rgb { r: 0, g: 255, b: 128 }));
    assert_eq!("#00ff8".parse::<Rgb>(), Err(ColorError::WrongLength));
}
