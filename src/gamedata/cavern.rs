use vstd::prelude::*;
use vstd::utf8::{decode_utf8, valid_utf8};

use crate::bitmap::Bitmap;
use crate::color::{attributes_of_byte, Attributes};
use crate::error::DecodeError;

verus! {

/// The size of a cavern record.
pub const CAVERN_RECORD_SIZE: usize = 1024;

/// Where the item records of a cavern start, their size and how many there
/// can be before the terminator.
pub const ITEMS_OFFSET: usize = 629;

pub const ITEM_RECORD_SIZE: usize = 5;

pub const MAX_ITEMS: usize = 5;

/// Where the guardian records of a cavern start, their size and how many
/// there can be before the terminator.
pub const GUARDIANS_OFFSET: usize = 702;

pub const GUARDIAN_RECORD_SIZE: usize = 7;

pub const MAX_GUARDIANS: usize = 4;

/// The byte that ends a list of item or guardian records.
pub const LIST_END: u8 = 0xFF;

/// The eight kinds of cavern tile, in the order of a cavern's tile bitmaps.
#[derive(Debug, Clone, Copy, PartialEq, Eq, Structural)]
pub enum CavernTileType {
    Background,
    Floor,
    CrumblingFloor,
    Wall,
    Conveyor,
    Nasty1,
    Nasty2,
    Extra,
}

/// The tile kind with ordinal `value`; any other value is background.
pub open spec fn tile_type_of_index(value: int) -> CavernTileType {
    if value == 1 {
        CavernTileType::Floor
    } else if value == 2 {
        CavernTileType::CrumblingFloor
    } else if value == 3 {
        CavernTileType::Wall
    } else if value == 4 {
        CavernTileType::Conveyor
    } else if value == 5 {
        CavernTileType::Nasty1
    } else if value == 6 {
        CavernTileType::Nasty2
    } else if value == 7 {
        CavernTileType::Extra
    } else {
        CavernTileType::Background
    }
}

impl CavernTileType {
    /// Floors, crumbling floors, conveyors, walls and extras carry a player.
    pub open spec fn can_stand_spec(&self) -> bool {
        match self {
            CavernTileType::Floor | CavernTileType::CrumblingFloor | CavernTileType::Conveyor
            | CavernTileType::Wall | CavernTileType::Extra => true,
            _ => false,
        }
    }

    /// The two hazard kinds.
    pub open spec fn is_nasty_spec(&self) -> bool {
        match self {
            CavernTileType::Nasty1 | CavernTileType::Nasty2 => true,
            _ => false,
        }
    }

    /// The tile kind with ordinal `value`; any other value is background.
    pub fn from_index(value: usize) -> (r: CavernTileType)
        ensures
            r == tile_type_of_index(value as int),
    {
        match value {
            1 => CavernTileType::Floor,
            2 => CavernTileType::CrumblingFloor,
            3 => CavernTileType::Wall,
            4 => CavernTileType::Conveyor,
            5 => CavernTileType::Nasty1,
            6 => CavernTileType::Nasty2,
            7 => CavernTileType::Extra,
            _ => CavernTileType::Background,
        }
    }

    #[verifier::when_used_as_spec(can_stand_spec)]
    pub fn can_stand(&self) -> (r: bool)
        ensures
            r == self.can_stand_spec(),
    {
        match *self {
            CavernTileType::Floor | CavernTileType::CrumblingFloor | CavernTileType::Conveyor
            | CavernTileType::Wall | CavernTileType::Extra => true,
            _ => false,
        }
    }

    #[verifier::when_used_as_spec(is_nasty_spec)]
    pub fn is_nasty(&self) -> (r: bool)
        ensures
            r == self.is_nasty_spec(),
    {
        match *self {
            CavernTileType::Nasty1 | CavernTileType::Nasty2 => true,
            _ => false,
        }
    }
}

impl From<usize> for CavernTileType {
    fn from(value: usize) -> (r: CavernTileType) {
        CavernTileType::from_index(value)
    }
}

impl vstd::std_specs::convert::FromSpecImpl<usize> for CavernTileType {
    open spec fn obeys_from_spec() -> bool {
        true
    }

    open spec fn from_spec(value: usize) -> CavernTileType {
        tile_type_of_index(value as int)
    }
}

/// The cell that a packed position holds: the two bytes read as a
/// little-endian value, x in bits 0-4 and y in bits 5-8.
pub open spec fn packed_position(lo: u8, hi: u8) -> (u8, u8) {
    let v = lo as int + 256 * hi as int;
    ((v % 32) as u8, ((v / 32) % 16) as u8)
}

/// Decodes the packed cell position in the first two bytes of `bytes`.
pub fn decode_packed_position(bytes: &[u8]) -> (r: (u8, u8))
    requires
        bytes@.len() >= 2,
    ensures
        r == packed_position(bytes@[0], bytes@[1]),
{
    let lo = bytes[0];
    let hi = bytes[1];
    let pos: u16 = (hi as u16) << 8u16 | lo as u16;
    let x = (pos & 0b11111) as u8;
    let y = ((pos & 0b111100000) >> 5u16) as u8;
    assert(((hi as u16) << 8u16 | lo as u16) & 0b11111 == (lo as u16) % 32) by (bit_vector);
    assert((((hi as u16) << 8u16 | lo as u16) & 0b111100000) >> 5u16 == ((lo as u16 + 256 * (
    hi as u16)) / 32) % 16) by (bit_vector);
    (x, y)
}

/// A cell (x, y) written little-endian as the value `x + 32 * y` decodes
/// back to (x, y).
pub proof fn lemma_packed_position_round_trip(x: u8, y: u8)
    requires
        x < 32,
        y < 16,
    ensures
        packed_position(((x + 32 * y) % 256) as u8, ((x + 32 * y) / 256) as u8) == (x, y),
{
    let v = x as int + 32 * y as int;
    assert((v % 256) + 256 * (v / 256) == v);
}

/// The layout of a cavern: a 32 by 16 grid of colour attributes, row by
/// row, that selects the tile of each cell.
#[derive(Debug)]
pub struct Layout {
    cells: Vec<Attributes>,
}

impl View for Layout {
    type V = Seq<Attributes>;

    closed spec fn view(&self) -> Seq<Attributes> {
        self.cells@
    }
}

/// The grid index of cell (x, y).
pub open spec fn cell_index(x: int, y: int) -> int {
    y * 32 + x
}

impl Layout {
    /// Decodes a layout from its 512 attribute bytes.
    pub fn try_from_bytes(bytes: &[u8]) -> (r: Result<Layout, DecodeError>)
        ensures
            bytes@.len() == 512 <==> r.is_ok(),
            r.is_err() ==> r == Err::<Layout, DecodeError>(DecodeError::InvalidRecordSize),
            r.is_ok() ==> r.unwrap()@ == Seq::new(512, |i: int| attributes_of_byte(bytes@[i])),
    {
        if bytes.len() != 512 {
            return Err(DecodeError::InvalidRecordSize);
        }
        let mut cells: Vec<Attributes> = Vec::new();
        let mut i: usize = 0;
        while i < 512
            invariant
                i <= 512,
                bytes@.len() == 512,
                cells@ == Seq::new(i as nat, |k: int| attributes_of_byte(bytes@[k])),
            decreases 512 - i,
        {
            cells.push(Attributes::from_byte(bytes[i]));
            i = i + 1;
            assert(cells@ =~= Seq::new(i as nat, |k: int| attributes_of_byte(bytes@[k])));
        }
        Ok(Layout { cells })
    }

    /// The attribute of cell (x, y).
    pub fn get_cell_color(&self, char_x: u8, char_y: u8) -> (r: &Attributes)
        requires
            self@.len() == 512,
            char_x < 32,
            char_y < 16,
        ensures
            *r == self@[cell_index(char_x as int, char_y as int)],
    {
        &self.cells[(char_y as usize * 32) + char_x as usize]
    }
}

/// How fast a guardian moves.
#[derive(Debug, Clone, Copy, PartialEq, Eq, Structural)]
pub enum GuardianSpeed {
    Normal,
    Fast,
}

/// A guardian as a cavern record describes it.
#[derive(Debug, Clone, Copy)]
pub struct Guardian {
    pub attributes: Attributes,
    pub start_pos: (u8, u8),
    pub first_animation_frame: u8,
    pub left_bound: u8,
    pub right_bound: u8,
    pub speed: GuardianSpeed,
}

/// The guardian that a 7-byte record describes: bit 7 of the first byte is
/// the speed and its low 7 bits the attribute, whose paper is always
/// transparent; bytes 1 to 3 hold the packed start cell, byte 4 the first
/// animation frame, bytes 5 and 6 the bound columns in their low 5 bits.
pub open spec fn guardian_of(rec: Seq<u8>) -> Guardian {
    let a = attributes_of_byte((rec[0] % 128) as u8);
    Guardian {
        attributes: Attributes { transparent_background: true, ..a },
        start_pos: packed_position(rec[1], rec[2]),
        first_animation_frame: rec[4],
        left_bound: (rec[5] % 32) as u8,
        right_bound: (rec[6] % 32) as u8,
        speed: if rec[0] >= 128 {
            GuardianSpeed::Fast
        } else {
            GuardianSpeed::Normal
        },
    }
}

impl Guardian {
    /// Decodes a guardian from its 7-byte record.
    pub fn try_from_bytes(guardian_data: &[u8]) -> (r: Result<Guardian, DecodeError>)
        ensures
            guardian_data@.len() == 7 <==> r.is_ok(),
            r.is_err() ==> r == Err::<Guardian, DecodeError>(DecodeError::InvalidRecordSize),
            r.is_ok() ==> r.unwrap() == guardian_of(guardian_data@),
    {
        if guardian_data.len() != 7 {
            return Err(DecodeError::InvalidRecordSize);
        }
        let b0 = guardian_data[0];
        let speed = if b0 & 0b10000000 == 0 {
            GuardianSpeed::Normal
        } else {
            GuardianSpeed::Fast
        };
        assert((b0 & 0b10000000 == 0) == (b0 < 128)) by (bit_vector);
        assert(b0 & 0b01111111 == b0 % 128) by (bit_vector);
        let mut attributes = Attributes::from_byte(b0 & 0b01111111);
        attributes.transparent_background = true;

        let b1 = guardian_data[1];
        let b2 = guardian_data[2];
        let b3 = guardian_data[3];
        let encoded_pos: u32 = b1 as u32 | ((b2 as u32) << 8u32) | ((b3 as u32) << 16u32);
        let x = (encoded_pos & 0b11111) as u8;
        let y = ((encoded_pos & 0b111100000) >> 5u32) as u8;
        assert((b1 as u32 | ((b2 as u32) << 8u32) | ((b3 as u32) << 16u32)) & 0b11111 == (b1 as u32)
            % 32) by (bit_vector);
        assert(((b1 as u32 | ((b2 as u32) << 8u32) | ((b3 as u32) << 16u32)) & 0b111100000) >> 5u32
            == ((b1 as u32 + 256 * (b2 as u32)) / 32) % 16) by (bit_vector);

        let b5 = guardian_data[5];
        let b6 = guardian_data[6];
        assert(b5 & 0b11111 == b5 % 32) by (bit_vector);
        assert(b6 & 0b11111 == b6 % 32) by (bit_vector);
        Ok(Guardian {
            attributes,
            start_pos: (x, y),
            first_animation_frame: guardian_data[4],
            left_bound: b5 & 0b11111,
            right_bound: b6 & 0b11111,
            speed,
        })
    }
}

/// The exit portal of a cavern.
#[derive(Debug)]
pub struct Portal {
    pub attributes: Attributes,
    pub bitmap: Bitmap,
    pub position: (u8, u8),
}

/// A portal matches a 37-byte record: the attribute byte, a 16 by 16
/// bitmap of 32 bytes, and the packed cell position.
pub open spec fn portal_matches(p: Portal, rec: Seq<u8>) -> bool {
    &&& p.attributes == attributes_of_byte(rec[0])
    &&& p.bitmap@ == rec.subrange(1, 33)
    &&& p.bitmap.width == 16
    &&& p.bitmap.height == 16
    &&& p.bitmap.color.is_none()
    &&& p.position == packed_position(rec[33], rec[34])
}

impl Portal {
    /// Decodes a portal from its 37-byte record.
    pub fn try_from_bytes(data: &[u8]) -> (r: Result<Portal, DecodeError>)
        ensures
            data@.len() == 37 <==> r.is_ok(),
            r.is_err() ==> r matches Err(DecodeError::InvalidRecordSize),
            r.is_ok() ==> portal_matches(r.unwrap(), data@),
    {
        if data.len() != 37 {
            return Err(DecodeError::InvalidRecordSize);
        }
        let attributes = Attributes::from_byte(data[0]);
        let bitmap = Bitmap::create(16, 16, &data[1..33]);
        let position = decode_packed_position(&data[33..35]);
        Ok(Portal { attributes, bitmap, position })
    }
}

/// An item as a cavern record describes it.
#[derive(Debug, Clone, Copy)]
pub struct Item {
    pub attributes: Attributes,
    pub position: (u8, u8),
}

/// The item that a record describes: the attribute byte, then the packed
/// cell position.
pub open spec fn item_of(rec: Seq<u8>) -> Item {
    Item { attributes: attributes_of_byte(rec[0]), position: packed_position(rec[1], rec[2]) }
}

impl Item {
    /// Decodes an item from the start of its record.
    pub fn from_bytes(data: &[u8]) -> (r: Item)
        requires
            data@.len() >= 3,
        ensures
            r == item_of(data@),
    {
        Item { attributes: Attributes::from_byte(data[0]), position: decode_packed_position(&data[1..3]) }
    }
}

/// The number of records in a list that starts at `start`, with records of
/// `stride` bytes, counting from record `k`: the index of the first record
/// whose first byte is the terminator, or none if there is none up to
/// index `max`.
pub open spec fn list_len_from(bytes: Seq<u8>, start: int, stride: int, k: nat, max: nat) -> Option<
    nat,
>
    decreases max - k,
{
    if bytes[start + stride * k] == LIST_END {
        Some(k)
    } else if k >= max {
        None
    } else {
        list_len_from(bytes, start, stride, k + 1, max)
    }
}

/// The number of item records in a cavern record.
pub open spec fn item_count(bytes: Seq<u8>) -> Option<nat> {
    list_len_from(bytes, ITEMS_OFFSET as int, ITEM_RECORD_SIZE as int, 0, MAX_ITEMS as nat)
}

/// The number of guardian records in a cavern record.
pub open spec fn guardian_count(bytes: Seq<u8>) -> Option<nat> {
    list_len_from(bytes, GUARDIANS_OFFSET as int, GUARDIAN_RECORD_SIZE as int, 0, MAX_GUARDIANS as nat)
}

/// The bytes of the cavern name.
pub open spec fn name_bytes(bytes: Seq<u8>) -> Seq<u8> {
    bytes.subrange(512, 544)
}

/// Why a cavern record cannot be decoded, checked in this order: its size,
/// its name, its guardian list, its item list.
pub open spec fn cavern_error(bytes: Seq<u8>) -> Option<DecodeError> {
    if bytes.len() != CAVERN_RECORD_SIZE {
        Some(DecodeError::InvalidRecordSize)
    } else if !valid_utf8(name_bytes(bytes)) {
        Some(DecodeError::InvalidText)
    } else if guardian_count(bytes).is_none() {
        Some(DecodeError::InvalidRecordSize)
    } else if item_count(bytes).is_none() {
        Some(DecodeError::InvalidRecordSize)
    } else {
        None
    }
}

/// A bitmap holds `rows`, has the given size and no colour.
pub open spec fn plain_bitmap(b: Bitmap, width: nat, height: nat, rows: Seq<u8>) -> bool {
    &&& b@ == rows
    &&& b.width == width
    &&& b.height == height
    &&& b.color.is_none()
}

/// Tile bitmap `i` of a cavern record: an attribute byte and eight rows.
pub open spec fn tile_bitmap_matches(b: Bitmap, bytes: Seq<u8>, i: int) -> bool {
    let start = 544 + 9 * i;
    &&& b@ == bytes.subrange(start + 1, start + 9)
    &&& b.width == 8
    &&& b.height == 8
    &&& b.color == Some(attributes_of_byte(bytes[start]))
}

/// A cavern as its record describes it.
#[derive(Debug)]
pub struct Cavern {
    pub layout: Layout,
    pub name: String,
    pub tile_bitmaps: Vec<Bitmap>,
    pub border_color: Attributes,
    pub portal: Portal,
    pub guardians: Vec<Guardian>,
    pub guardian_bitmaps: Vec<Bitmap>,
    pub items: Vec<Item>,
    pub item_bitmap: Bitmap,
}

impl Cavern {
    /// The cavern holds what its 1024-byte record `bytes` describes.
    pub open spec fn decoded_from(&self, bytes: Seq<u8>) -> bool {
        &&& self.layout@ == Seq::new(512, |i: int| attributes_of_byte(bytes[i]))
        &&& self.name@ == decode_utf8(name_bytes(bytes))
        &&& self.tile_bitmaps@.len() == 8
        &&& forall|i: int|
            0 <= i < 8 ==> tile_bitmap_matches(#[trigger] self.tile_bitmaps@[i], bytes, i)
        &&& self.border_color == attributes_of_byte(bytes[627])
        &&& portal_matches(self.portal, bytes.subrange(655, 692))
        &&& guardian_count(bytes) == Some(self.guardians@.len())
        &&& forall|j: int|
            0 <= j < self.guardians@.len() ==> #[trigger] self.guardians@[j] == guardian_of(
                bytes.subrange(702 + 7 * j, 709 + 7 * j),
            )
        &&& self.guardian_bitmaps@.len() == 8
        &&& forall|i: int|
            0 <= i < 8 ==> plain_bitmap(
                #[trigger] self.guardian_bitmaps@[i],
                16,
                16,
                bytes.subrange(768 + 32 * i, 800 + 32 * i),
            )
        &&& item_count(bytes) == Some(self.items@.len())
        &&& forall|j: int|
            0 <= j < self.items@.len() ==> #[trigger] self.items@[j] == item_of(
                bytes.subrange(629 + 5 * j, 634 + 5 * j),
            )
        &&& plain_bitmap(self.item_bitmap, 8, 8, bytes.subrange(692, 700))
    }

    /// The shape that every decoded cavern has.
    pub open spec fn wf(&self) -> bool {
        &&& self.layout@.len() == 512
        &&& self.tile_bitmaps@.len() == 8
        &&& forall|i: int| 0 <= i < 8 ==> (#[trigger] self.tile_bitmaps@[i]).color.is_some()
    }

    /// Decodes a cavern from its 1024-byte record.
    pub fn try_from_bytes(bytes: &[u8]) -> (r: Result<Cavern, DecodeError>)
        ensures
            r.is_ok() <==> cavern_error(bytes@).is_none(),
            r.is_err() ==> Some(r->Err_0) == cavern_error(bytes@),
            r.is_ok() ==> r.unwrap().decoded_from(bytes@) && r.unwrap().wf(),
    {
        if bytes.len() != CAVERN_RECORD_SIZE {
            return Err(DecodeError::InvalidRecordSize);
        }
        let layout = match Layout::try_from_bytes(&bytes[0..512]) {
            Ok(l) => l,
            Err(e) => return Err(e),
        };
        let name = match text_from_utf8(&bytes[512..544]) {
            Some(s) => s,
            None => return Err(DecodeError::InvalidText),
        };
        let tile_bitmaps = decode_tile_bitmaps(bytes);
        let border_color = Attributes::from_byte(bytes[627]);
        let portal = match Portal::try_from_bytes(&bytes[655..692]) {
            Ok(p) => p,
            Err(e) => return Err(e),
        };
        let guardians = match decode_guardians(bytes) {
            Some(g) => g,
            None => return Err(DecodeError::InvalidRecordSize),
        };
        let mut guardian_bitmaps: Vec<Bitmap> = Vec::new();
        let mut i: usize = 0;
        while i < 8
            invariant
                i <= 8,
                bytes@.len() == 1024,
                guardian_bitmaps@.len() == i,
                forall|k: int|
                    0 <= k < i ==> plain_bitmap(
                        #[trigger] guardian_bitmaps@[k],
                        16,
                        16,
                        bytes@.subrange(768 + 32 * k, 800 + 32 * k),
                    ),
            decreases 8 - i,
        {
            let offset = 768 + 32 * i;
            guardian_bitmaps.push(Bitmap::create(16, 16, &bytes[offset..offset + 32]));
            i = i + 1;
        }
        let items = match decode_items(bytes) {
            Some(it) => it,
            None => return Err(DecodeError::InvalidRecordSize),
        };
        let item_bitmap = Bitmap::create(8, 8, &bytes[692..700]);
        let r = Cavern {
            layout,
            name,
            tile_bitmaps,
            border_color,
            portal,
            guardians,
            guardian_bitmaps,
            items,
            item_bitmap,
        };
        proof {
            assert(r.layout@ =~= Seq::new(512, |i: int| attributes_of_byte(bytes@[i])));
        }
        Ok(r)
    }

    /// The index of the tile bitmap whose colour is that of cell (x, y), if
    /// there is one.
    pub fn get_bg_sprite_index(&self, pos: (u8, u8)) -> (r: Option<usize>)
        requires
            self.wf(),
            pos.0 < 32,
            pos.1 < 16,
        ensures
            r == tile_index_of(self, pos.0 as int, pos.1 as int),
    {
        let (char_x, char_y) = pos;
        let color = self.layout.get_cell_color(char_x, char_y);
        let mut i: usize = 0;
        while i < self.tile_bitmaps.len()
            invariant
                self.wf(),
                i <= 8,
                *color == self.layout@[cell_index(char_x as int, char_y as int)],
                tile_index_of(self, pos.0 as int, pos.1 as int) == first_matching_tile(
                    self,
                    *color,
                    i as int,
                ),
            decreases 8 - i,
        {
            let c = self.tile_bitmaps[i].color.unwrap();
            if c.ink == color.ink && c.paper == color.paper && c.bright == color.bright {
                return Some(i);
            }
            i = i + 1;
        }
        None
    }
}

/// The first tile bitmap, from index `i` on, whose colour equals `color`.
pub open spec fn first_matching_tile(c: &Cavern, color: Attributes, i: int) -> Option<usize>
    decreases 8 - i,
{
    if i < 0 || i >= 8 {
        None
    } else if c.tile_bitmaps@[i].color.unwrap().same_color(&color) {
        Some(i as usize)
    } else {
        first_matching_tile(c, color, i + 1)
    }
}

/// The index of the tile bitmap that cell (x, y) of a cavern shows.
pub open spec fn tile_index_of(c: &Cavern, x: int, y: int) -> Option<usize> {
    first_matching_tile(c, c.layout@[cell_index(x, y)], 0)
}

/// Relies on `core::str::from_utf8`, which accepts exactly the valid UTF-8
/// byte sequences, and then copies the text into a `String`.
#[verifier::external_body]
fn text_from_utf8(bytes: &[u8]) -> (r: Option<String>)
    ensures
        r.is_some() == valid_utf8(bytes@),
        r.is_some() ==> r.unwrap()@ == decode_utf8(bytes@),
{
    core::str::from_utf8(bytes).ok().map(|s| s.to_owned())
}

/// The eight tile bitmaps of a cavern record.
fn decode_tile_bitmaps(bytes: &[u8]) -> (r: Vec<Bitmap>)
    requires
        bytes@.len() == 1024,
    ensures
        r@.len() == 8,
        forall|i: int| 0 <= i < 8 ==> tile_bitmap_matches(#[trigger] r@[i], bytes@, i),
{
    let mut tile_bitmaps: Vec<Bitmap> = Vec::new();
    let mut pos: usize = 544;
    let mut i: usize = 0;
    while i < 8
        invariant
            i <= 8,
            pos == 544 + 9 * i,
            bytes@.len() == 1024,
            tile_bitmaps@.len() == i,
            forall|k: int| 0 <= k < i ==> tile_bitmap_matches(#[trigger] tile_bitmaps@[k], bytes@, k),
        decreases 8 - i,
    {
        let end = pos + 9;
        let b = Bitmap::create_with_attributes(8, 8, &bytes[pos..end]);
        assert(b@ =~= bytes@.subrange(pos + 1, pos + 9));
        tile_bitmaps.push(b);
        pos = end;
        i = i + 1;
    }
    tile_bitmaps
}

/// The guardian records of a cavern record, or none if more than four come
/// before the terminator.
fn decode_guardians(bytes: &[u8]) -> (r: Option<Vec<Guardian>>)
    requires
        bytes@.len() == 1024,
    ensures
        r.is_some() <==> guardian_count(bytes@).is_some(),
        r.is_some() ==> {
            let g = r.unwrap();
            &&& guardian_count(bytes@) == Some(g@.len())
            &&& forall|j: int|
                0 <= j < g@.len() ==> #[trigger] g@[j] == guardian_of(
                    bytes@.subrange(702 + 7 * j, 709 + 7 * j),
                )
        },
{
    let mut guardians: Vec<Guardian> = Vec::new();
    let mut offset: usize = GUARDIANS_OFFSET;
    let mut k: usize = 0;
    while bytes[offset] != LIST_END
        invariant
            k <= MAX_GUARDIANS,
            offset == 702 + 7 * k,
            bytes@.len() == 1024,
            guardians@.len() == k,
            guardian_count(bytes@) == list_len_from(bytes@, 702, 7, k as nat, 4),
            forall|j: int|
                0 <= j < k ==> #[trigger] guardians@[j] == guardian_of(
                    bytes@.subrange(702 + 7 * j, 709 + 7 * j),
                ),
        decreases MAX_GUARDIANS - k,
    {
        if k == MAX_GUARDIANS {
            return None;
        }
        let g = match Guardian::try_from_bytes(&bytes[offset..offset + 7]) {
            Ok(g) => g,
            Err(_) => return None,
        };
        guardians.push(g);
        offset = offset + GUARDIAN_RECORD_SIZE;
        k = k + 1;
    }
    Some(guardians)
}

/// The item records of a cavern record, or none if more than five come
/// before the terminator.
fn decode_items(bytes: &[u8]) -> (r: Option<Vec<Item>>)
    requires
        bytes@.len() == 1024,
    ensures
        r.is_some() <==> item_count(bytes@).is_some(),
        r.is_some() ==> {
            let it = r.unwrap();
            &&& item_count(bytes@) == Some(it@.len())
            &&& forall|j: int|
                0 <= j < it@.len() ==> #[trigger] it@[j] == item_of(
                    bytes@.subrange(629 + 5 * j, 634 + 5 * j),
                )
        },
{
    let mut items: Vec<Item> = Vec::new();
    let mut offset: usize = ITEMS_OFFSET;
    let mut k: usize = 0;
    while bytes[offset] != LIST_END
        invariant
            k <= MAX_ITEMS,
            offset == 629 + 5 * k,
            bytes@.len() == 1024,
            items@.len() == k,
            item_count(bytes@) == list_len_from(bytes@, 629, 5, k as nat, 5),
            forall|j: int|
                0 <= j < k ==> #[trigger] items@[j] == item_of(
                    bytes@.subrange(629 + 5 * j, 634 + 5 * j),
                ),
        decreases MAX_ITEMS - k,
    {
        if k == MAX_ITEMS {
            return None;
        }
        let item = Item::from_bytes(&bytes[offset..offset + 5]);
        items.push(item);
        offset = offset + ITEM_RECORD_SIZE;
        k = k + 1;
    }
    Some(items)
}

} // verus!
