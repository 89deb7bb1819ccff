use miner_willy::error::DecodeError;
use miner_willy::gamedata::cavern::{decode_packed_position, Cavern, CavernTileType, GuardianSpeed, Layout};
use miner_willy::gamedata::data::{extract_caverns, extract_willy_sprites, GameData};

const NAME: &str = "         Central Cavern         ";

/// A cavern record with a known byte at each offset: two items, one
/// guardian, a floor along the bottom row.
fn record() -> Vec<u8> {
    let mut r = vec![0u8; 1024];
    for x in 0..32 {
        r[15 * 32 + x] = 0x42;
    }
    r[13 * 32 + 10] = 0x44;
    r[512..544].copy_from_slice(NAME.as_bytes());
    let tile_attrs = [0x00u8, 0x42, 0x02, 0x16, 0x04, 0x44, 0x05, 0x03];
    for (i, a) in tile_attrs.iter().enumerate() {
        let start = 544 + 9 * i;
        r[start] = *a;
        for k in 1..9 {
            r[start + k] = (i * 16 + k) as u8;
        }
    }
    r[627] = 0x02;
    // Two items, then the terminator.
    r[629..634].copy_from_slice(&[0x03, 0x05, 0x00, 0x60, 0x93]);
    r[634..639].copy_from_slice(&[0x06, 0xFF, 0x01, 0x60, 0x93]);
    r[639] = 0xFF;
    // The portal.
    r[655] = 0x0E;
    for k in 0..32 {
        r[656 + k] = k as u8;
    }
    r[688] = 0xBD;
    r[689] = 0x01;
    for k in 0..8 {
        r[692 + k] = 0x10 + k as u8;
    }
    // One fast guardian, then the terminator.
    r[702..709].copy_from_slice(&[0x86, 0x68, 0x01, 0x00, 0x05, 0x61, 0x6F]);
    r[709] = 0xFF;
    for k in 0..256 {
        r[768 + k] = (k % 251) as u8;
    }
    r
}

#[test]
fn decodes_synthetic_record() {
    let bytes = record();
    let c = Cavern::try_from_bytes(&bytes).unwrap();
    assert_eq!(c.name, NAME);
    let b = c.border_color;
    assert_eq!((b.ink, b.paper, b.bright), (2, 0, false));
    assert_eq!(c.tile_bitmaps.len(), 8);
    assert_eq!(c.tile_bitmaps[3].data, vec![49, 50, 51, 52, 53, 54, 55, 56]);
    assert_eq!(c.tile_bitmaps[3].color.unwrap().to_byte(), 0x16);
    assert_eq!(c.items.len(), 2);
    assert_eq!(c.items[0].position, (5, 0));
    assert_eq!(c.items[1].position, (31, 15));
    assert_eq!(c.items[1].attributes.ink, 6);
    assert_eq!(c.guardians.len(), 1);
    let g = &c.guardians[0];
    assert!(matches!(g.speed, GuardianSpeed::Fast));
    assert_eq!((g.attributes.ink, g.attributes.paper), (6, 0));
    assert!(g.attributes.transparent_background);
    assert_eq!(g.start_pos, (8, 11));
    assert_eq!(g.first_animation_frame, 5);
    assert_eq!((g.left_bound, g.right_bound), (1, 15));
    assert_eq!(c.portal.position, (29, 13));
    assert_eq!(c.portal.attributes.to_byte(), 0x0E);
    assert_eq!(c.portal.bitmap.data.len(), 32);
    assert_eq!(c.portal.bitmap.data[31], 31);
    assert_eq!(c.item_bitmap.data, vec![0x10, 0x11, 0x12, 0x13, 0x14, 0x15, 0x16, 0x17]);
    assert_eq!(c.guardian_bitmaps.len(), 8);
    assert_eq!(c.guardian_bitmaps[7].data[0], (224 % 251) as u8);
    assert_eq!(c.layout.get_cell_color(3, 15).to_byte(), 0x42);
}

#[test]
fn tile_kinds_follow_matching_bitmap() {
    let c = Cavern::try_from_bytes(&record()).unwrap();
    assert_eq!(c.get_bg_sprite_index((0, 15)), Some(1));
    assert_eq!(c.get_bg_sprite_index((10, 13)), Some(5));
    assert_eq!(c.get_bg_sprite_index((0, 0)), Some(0));
    assert_eq!(CavernTileType::from_index(1), CavernTileType::Floor);
    assert_eq!(CavernTileType::from(9usize), CavernTileType::Background);
}

#[test]
fn colour_without_bitmap_has_no_tile() {
    let mut bytes = record();
    bytes[4] = 0x7F;
    let c = Cavern::try_from_bytes(&bytes).unwrap();
    assert_eq!(c.get_bg_sprite_index((4, 0)), None);
}

#[test]
fn terminator_first_gives_no_items() {
    let mut bytes = record();
    bytes[629] = 0xFF;
    let c = Cavern::try_from_bytes(&bytes).unwrap();
    assert_eq!(c.items.len(), 0);
}

#[test]
fn five_items_then_terminator() {
    let mut bytes = record();
    for k in 0..5 {
        bytes[629 + 5 * k] = 0x03;
    }
    bytes[654] = 0xFF;
    let c = Cavern::try_from_bytes(&bytes).unwrap();
    assert_eq!(c.items.len(), 5);
}

#[test]
fn too_many_items_is_rejected() {
    let mut bytes = record();
    for k in 0..5 {
        bytes[629 + 5 * k] = 0x03;
    }
    bytes[654] = 0x00;
    assert_eq!(Cavern::try_from_bytes(&bytes).unwrap_err(), DecodeError::InvalidRecordSize);
}

#[test]
fn too_many_guardians_is_rejected() {
    let mut bytes = record();
    for k in 0..5 {
        bytes[702 + 7 * k] = 0x06;
    }
    assert_eq!(Cavern::try_from_bytes(&bytes).unwrap_err(), DecodeError::InvalidRecordSize);
    bytes[730] = 0xFF;
    assert_eq!(Cavern::try_from_bytes(&bytes).unwrap().guardians.len(), 4);
}

#[test]
fn wrong_record_size_is_rejected() {
    let bytes = record();
    assert_eq!(Cavern::try_from_bytes(&bytes[..1023]).unwrap_err(), DecodeError::InvalidRecordSize);
    assert_eq!(Layout::try_from_bytes(&bytes[..511]).unwrap_err(), DecodeError::InvalidRecordSize);
}

#[test]
fn invalid_name_is_rejected() {
    let mut bytes = record();
    bytes[520] = 0xC3;
    bytes[521] = 0x28;
    assert_eq!(Cavern::try_from_bytes(&bytes).unwrap_err(), DecodeError::InvalidText);
}

#[test]
fn packed_position_decodes_low_bits() {
    assert_eq!(decode_packed_position(&[0b0000_0101, 0]), (5, 0));
    assert_eq!(decode_packed_position(&[0xFF, 0x01]), (31, 15));
    assert_eq!(decode_packed_position(&[0xFF, 0xFF]), (31, 15));
    // x = 31, y = 15 packed as x + 32 * y.
    let v: u16 = 31 + 32 * 15;
    assert_eq!(decode_packed_position(&v.to_le_bytes()), (31, 15));
}

fn blob() -> Vec<u8> {
    let mut b = vec![0u8; 0xb000 + 20 * 1024];
    for k in 0..256 {
        b[0x8200 + k] = k as u8;
    }
    let r = record();
    for i in 0..20 {
        b[0xb000 + 1024 * i..0xb000 + 1024 * (i + 1)].copy_from_slice(&r);
    }
    b
}

#[test]
fn decodes_whole_game_data() {
    let data = GameData::from_bytes(&blob()).unwrap();
    assert_eq!(data.caverns.len(), 20);
    assert_eq!(data.willy_sprites.len(), 8);
    assert_eq!(data.willy_sprites[1].data[0], 32);
    assert_eq!((data.willy_sprites[1].width, data.willy_sprites[1].height), (16, 16));
    assert_eq!(data.caverns[19].name, NAME);
}

#[test]
fn short_game_data_is_truncated() {
    let b = blob();
    assert_eq!(GameData::from_bytes(&b[..0x8200 + 255]).unwrap_err(), DecodeError::Truncated);
    assert_eq!(extract_willy_sprites(&b[..0x8200 + 256]).unwrap().len(), 8);
    assert_eq!(extract_caverns(&b[..b.len() - 1]).unwrap_err(), DecodeError::Truncated);
}

#[test]
fn first_bad_cavern_fails_the_load() {
    let mut b = blob();
    b[0xb000 + 1024 * 3 + 515] = 0xFF;
    assert_eq!(GameData::from_bytes(&b).unwrap_err(), DecodeError::InvalidText);
}
