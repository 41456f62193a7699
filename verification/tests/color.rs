use std::str::FromStr;
use wcagcontrast::Color;
use wcagcontrast::ColorError;

#[test]
fn color_from_hex() {
    assert_eq!(Color::from_str("#000000").unwrap(), Color::new(0, 0, 0));

    assert_eq!(Color::from_str("#FFFFFF").unwrap(), Color::new(255, 255, 255));

    assert_eq!(Color::from_str("#ffffff").unwrap(), Color::new(255, 255, 255));
}

#[test]
fn from_hex_parses_black_and_white() {
    assert_eq!(Color::from_hex("#000000"), Ok(Color::new(0, 0, 0)));
    assert_eq!(Color::from_hex("#FFFFFF"), Ok(Color::new(255, 255, 255)));
    assert_eq!(Color::from_hex("#ffffff"), Ok(Color::new(255, 255, 255)));
    assert_eq!(Color::from_hex("#FFFFFF"), Color::from_hex("#ffffff"));
}

#[test]
fn from_hex_parses_mixed_case() {
    assert_eq!(Color::from_hex("#AbCdEf"), Ok(Color::new(0xAB, 0xCD, 0xEF)));
    assert_eq!(Color::from_hex("#1a2B3c"), Ok(Color::new(0x1A, 0x2B, 0x3C)));
}

#[test]
fn from_hex_rejects_short_input() {
    assert_eq!(Color::from_hex("#12"), Err(ColorError::InvalidColorFormat));
    assert_eq!(Color::from_hex(""), Err(ColorError::InvalidColorFormat));
    assert_eq!(Color::from_hex("#12345"), Err(ColorError::InvalidColorFormat));
}

#[test]
fn from_hex_rejects_non_hex_digit() {
    assert_eq!(Color::from_hex("#GGGGGG"), Err(ColorError::InvalidColorFormat));
    assert_eq!(Color::from_hex("#12345G"), Err(ColorError::InvalidColorFormat));
    assert_eq!(Color::from_hex("#-12345"), Err(ColorError::InvalidColorFormat));
}

#[test]
fn from_hex_reads_fixed_offsets_only() {
    // The leading character is not inspected...
    assert_eq!(Color::from_hex("x123456"), Ok(Color::new(0x12, 0x34, 0x56)));
    // ...and neither is anything past the seventh.
    assert_eq!(Color::from_hex("#123456ZZ"), Ok(Color::new(0x12, 0x34, 0x56)));
}

#[test]
fn rgb_returns_channels() {
    assert_eq!(Color::new(1, 2, 3).rgb(), (1, 2, 3));
    assert_eq!(Color::new(255, 0, 128).rgb(), (255, 0, 128));
}

#[test]
fn from_rgb_tuple_round_trip() {
    let colors = vec![
        Color::new(0, 0, 0),
        Color::new(255, 255, 255),
        Color::new(17, 99, 201),
    ];
    for c in colors {
        assert_eq!(Color::from_rgb_tuple(c.rgb()), c);
    }
    assert_eq!(Color::from((9, 8, 7)), Color::new(9, 8, 7));
}
