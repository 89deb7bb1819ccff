use miner_willy::bitmap::{crumble_frames, rotate_right, to_rgba, Bitmap};
use miner_willy::color::Attributes;
use miner_willy::gamedata::sprite::Sprite;
use miner_willy::error::DecodeError;

fn assert_bits(actual: u8, expected: u8) {
    assert_eq!(actual, expected, "Got `{:#010b}` expected `{:#010b}`", actual, expected);
}

#[test]
fn rotate_8by8() {
    let mut bitmap = Bitmap::create(8, 8, &[
        0b10101010,
        0b01010101,
        0b10101010,
        0b01010101,
        0b10101010,
        0b01010101,
        0b10101010,
        0b01010101,
    ]);

    bitmap.rotate_row(0, -1);
    assert_bits(bitmap.data[0], 0b01010101);

    bitmap.rotate_row(0, -1);
    assert_bits(bitmap.data[0], 0b10101010);

    bitmap.rotate_row(1, 1);
    assert_bits(bitmap.data[1], 0b10101010);
}

#[test]
fn rotation_wraps_bits_round() {
    let mut bitmap = Bitmap::create(8, 1, &[0b1000_0001]);
    bitmap.rotate_row(0, 1);
    assert_bits(bitmap.data[0], 0b1100_0000);
    bitmap.rotate_row(0, -3);
    assert_bits(bitmap.data[0], 0b0000_0110);
    bitmap.rotate_row(0, 8);
    assert_bits(bitmap.data[0], 0b0000_0110);
    bitmap.rotate_row(0, 0);
    assert_bits(bitmap.data[0], 0b0000_0110);
    bitmap.rotate_row(0, -128);
    assert_bits(bitmap.data[0], 0b0000_0110);
    assert_bits(rotate_right(0b0000_0001, 1), 0b1000_0000);
}

#[test]
fn create_with_attributes_reads_colour_byte() {
    let b = Bitmap::create_with_attributes(8, 8, &[0x45, 1, 2, 3, 4, 5, 6, 7, 8]);
    assert_eq!(b.data, vec![1, 2, 3, 4, 5, 6, 7, 8]);
    let c = b.color.unwrap();
    assert_eq!((c.ink, c.paper, c.bright), (5, 0, true));
    assert_eq!((b.width, b.height), (8, 8));
}

#[test]
fn shift_down_pushes_zero_rows() {
    let b = Bitmap::create(16, 3, &[1, 2, 3, 4, 5, 6]);
    let s = b.shift_down();
    assert_eq!(s.data, vec![0, 0, 1, 2, 3, 4]);
    assert_eq!((s.width, s.height), (16, 3));
    let t = Bitmap::create(8, 4, &[9, 8, 7, 6]).shift_down();
    assert_eq!(t.data, vec![0, 9, 8, 7]);
}

#[test]
fn crumble_frames_shift_one_row_more_each() {
    let base = Bitmap::create_with_attributes(8, 8, &[0x02, 1, 2, 3, 4, 5, 6, 7, 8]);
    let frames = crumble_frames(&base);
    assert_eq!(frames.len(), 8);
    assert_eq!(frames[0].data, vec![0, 1, 2, 3, 4, 5, 6, 7]);
    assert_eq!(frames[2].data, vec![0, 0, 0, 1, 2, 3, 4, 5]);
    assert_eq!(frames[7].data, vec![0; 8]);
    assert!(frames[7].color.is_some());
}

#[test]
fn to_rgba_expands_bits_most_significant_first() {
    let mut rgba = vec![9];
    to_rgba(&mut rgba, &0b1000_0001, &[1, 1, 1, 1], &[0, 0, 0, 0]);
    let mut expected = vec![9, 1, 1, 1, 1];
    expected.extend(vec![0; 24]);
    expected.extend(vec![1, 1, 1, 1]);
    assert_eq!(rgba, expected);
}

#[test]
fn render_uses_ink_for_set_pixels() {
    let b = Bitmap::create_with_attributes(8, 1, &[0b0100_0001, 0b0100_0000]);
    let rgba = b.render();
    assert_eq!(rgba.len(), 32);
    assert_eq!(&rgba[0..4], &[0x00, 0x00, 0x00, 0xff]);
    assert_eq!(&rgba[4..8], &[0x00, 0x00, 0xff, 0xff]);
    let transparent = Attributes { ink: 7, paper: 0, bright: false, transparent_background: true };
    let t = b.render_with_color(&transparent);
    assert_eq!(&t[0..8], &[0, 0, 0, 0, 0xee, 0xee, 0xee, 0xff]);
}

#[test]
fn sprite_needs_exact_length() {
    assert_eq!(Sprite::try_from_bytes(16, 2, &[0x07, 1, 2, 3]).unwrap_err(), DecodeError::InvalidRecordSize);
    assert_eq!(Sprite::try_from_bytes(8, 1, &[]).unwrap_err(), DecodeError::InvalidRecordSize);
    let s = Sprite::try_from_bytes(16, 2, &[0x07, 0x80, 0, 0, 1]).unwrap();
    assert_eq!(s.bytes, vec![0x80, 0, 0, 1]);
    assert_eq!(s.color.ink, 7);
}

#[test]
fn sprite_renders_row_by_row() {
    let s = Sprite::try_from_bytes(16, 2, &[0x07, 0x80, 0, 0, 1]).unwrap();
    let rows = s.to_rgba();
    assert_eq!(rows.len(), 2);
    assert_eq!(rows[0].len(), 64);
    assert_eq!(&rows[0][0..4], &[0xee, 0xee, 0xee, 0xff]);
    assert_eq!(&rows[0][4..8], &[0, 0, 0, 0xff]);
    assert_eq!(&rows[1][60..64], &[0xee, 0xee, 0xee, 0xff]);
}
