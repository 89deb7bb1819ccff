use miner_willy::color::{Attributes, ColorName};
use miner_willy::error::DecodeError;

#[test]
fn can_convert_to_u8() {
    assert_eq!(
        u8::from(&Attributes {
            paper: 3,
            ink: 4,
            bright: true,
            ..Default::default()
        }),
        0b1011100
    );
    assert_eq!(
        u8::from(&Attributes {
            paper: 3,
            ink: 4,
            bright: false,
            ..Default::default()
        }),
        0b0011100
    );
    assert_eq!(
        u8::from(&Attributes {
            paper: 7,
            ink: 7,
            bright: true,
            ..Default::default()
        }),
        0b1111111
    );
}

#[test]
fn can_convert_to_rgba() {
    let color = Attributes {
        paper: 5,
        ink: 2,
        bright: true,
        ..Default::default()
    };
    assert_eq!(vec![0xff, 0x00, 0x00, 0xff], color.ink_rgba());
    assert_eq!(vec![0x00, 0xff, 0xff, 0xff], color.paper_rgba());
}

#[test]
fn byte_round_trip_for_every_byte_below_128() {
    for b in 0u8..128 {
        let a = Attributes::from_byte(b);
        assert!(a.ink < 8 && a.paper < 8);
        assert_eq!(a.to_byte(), b);
    }
}

#[test]
fn high_bit_is_ignored_when_unpacking() {
    let a = Attributes::from_byte(0b1101_1100);
    assert_eq!((a.ink, a.paper, a.bright), (4, 3, true));
    assert_eq!(a.to_byte(), 0b0101_1100);
}

#[test]
fn decodes_example_byte() {
    let a = Attributes::from_byte(0b1011100);
    assert_eq!(a.ink, 4);
    assert_eq!(a.paper, 3);
    assert!(a.bright);
    assert!(!a.transparent_background);
    assert_eq!(a.to_byte(), 0b1011100);
    assert_eq!(Attributes::from(0b1011100u8).to_byte(), 0b1011100);
}

#[test]
fn dim_colours_use_level_ee() {
    let a = Attributes { ink: 7, paper: 1, bright: false, transparent_background: false };
    assert_eq!(a.ink_rgba(), vec![0xee, 0xee, 0xee, 0xff]);
    assert_eq!(a.paper_rgba(), vec![0x00, 0x00, 0xee, 0xff]);
}

#[test]
fn transparent_paper_has_zero_alpha() {
    let a = Attributes::new_transparent_bg(ColorName::White, false);
    assert_eq!(a.ink, 7);
    assert_eq!(a.paper, 0);
    assert_eq!(a.paper_rgba(), vec![0, 0, 0, 0]);
    assert_eq!(a.ink_rgba(), vec![0xee, 0xee, 0xee, 0xff]);
}

#[test]
fn new_uses_palette_indices() {
    let a = Attributes::new(ColorName::Cyan, ColorName::Magenta, true);
    assert_eq!((a.ink, a.paper, a.bright, a.transparent_background), (5, 3, true, false));
    assert_eq!(u8::from(ColorName::Yellow), 6);
    assert_eq!(ColorName::Green.index(), 4);
}

#[test]
fn equality_ignores_transparency() {
    let a = Attributes { ink: 1, paper: 2, bright: true, transparent_background: true };
    let b = Attributes { ink: 1, paper: 2, bright: true, transparent_background: false };
    let c = Attributes { ink: 1, paper: 2, bright: false, transparent_background: false };
    assert_eq!(a, b);
    assert_ne!(b, c);
}

#[test]
fn inverse_swaps_ink_and_paper() {
    let a = Attributes { ink: 1, paper: 6, bright: true, transparent_background: false };
    let i = a.inverse();
    assert_eq!((i.ink, i.paper, i.bright), (6, 1, true));
}

#[test]
fn parses_hexadecimal_attribute() {
    let a = Attributes::try_from_hex("5c").unwrap();
    assert_eq!((a.ink, a.paper, a.bright), (4, 3, true));
    let b = Attributes::try_from_hex("+0F").unwrap();
    assert_eq!((b.ink, b.paper, b.bright), (7, 1, false));
}

#[test]
fn rejects_bad_hexadecimal_attribute() {
    assert_eq!(Attributes::try_from_hex("").unwrap_err(), DecodeError::InvalidColorByte);
    assert_eq!(Attributes::try_from_hex("1g").unwrap_err(), DecodeError::InvalidColorByte);
    assert_eq!(Attributes::try_from_hex("100").unwrap_err(), DecodeError::InvalidColorByte);
    assert_eq!(Attributes::try_from_hex("+").unwrap_err(), DecodeError::InvalidColorByte);
    assert_eq!(Attributes::try_from_hex("-1").unwrap_err(), DecodeError::InvalidColorByte);
}
