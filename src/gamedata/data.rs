use vstd::prelude::*;

use crate::bitmap::Bitmap;
use crate::error::DecodeError;
use crate::gamedata::cavern::{cavern_error, plain_bitmap, Cavern};

verus! {

/// Where the eight player sprites start in the game data, and the size of
/// each.
pub const WILLY_SPRITE_OFFSET: usize = 0x8200;

pub const WILLY_SPRITE_SIZE_BYTES: usize = 32;

pub const WILLY_SPRITE_COUNT: usize = 8;

/// Where the cavern records start in the game data, how many there are and
/// the size of each.
pub const CAVERNS_OFFSET: usize = 0xb000;

pub const CAVERN_COUNT: usize = 20;

pub const CAVERN_DATA_SIZE_BYTES: usize = 1024;

/// The bytes of cavern record `i` of the game data.
pub open spec fn cavern_record(blob: Seq<u8>, i: int) -> Seq<u8> {
    blob.subrange(
        CAVERNS_OFFSET + CAVERN_DATA_SIZE_BYTES * i,
        CAVERNS_OFFSET + CAVERN_DATA_SIZE_BYTES * (i + 1),
    )
}

/// The bytes of player sprite `i` of the game data.
pub open spec fn sprite_record(blob: Seq<u8>, i: int) -> Seq<u8> {
    blob.subrange(
        WILLY_SPRITE_OFFSET + WILLY_SPRITE_SIZE_BYTES * i,
        WILLY_SPRITE_OFFSET + WILLY_SPRITE_SIZE_BYTES * (i + 1),
    )
}

/// The game data is long enough for all the player sprites.
pub open spec fn holds_sprites(blob: Seq<u8>) -> bool {
    blob.len() >= WILLY_SPRITE_OFFSET + WILLY_SPRITE_SIZE_BYTES * WILLY_SPRITE_COUNT
}

/// The game data is long enough for all the cavern records.
pub open spec fn holds_caverns(blob: Seq<u8>) -> bool {
    blob.len() >= CAVERNS_OFFSET + CAVERN_DATA_SIZE_BYTES * CAVERN_COUNT
}

/// The error of the first cavern record, from record `i` on, that cannot be
/// decoded.
pub open spec fn first_cavern_error(blob: Seq<u8>, i: int) -> Option<DecodeError>
    decreases CAVERN_COUNT - i,
{
    if i < 0 || i >= CAVERN_COUNT {
        None
    } else {
        match cavern_error(cavern_record(blob, i)) {
            Some(e) => Some(e),
            None => first_cavern_error(blob, i + 1),
        }
    }
}

/// Why the cavern records of the game data cannot be decoded.
pub open spec fn caverns_error(blob: Seq<u8>) -> Option<DecodeError> {
    if !holds_caverns(blob) {
        Some(DecodeError::Truncated)
    } else {
        first_cavern_error(blob, 0)
    }
}

/// The player sprites decoded from the game data.
pub open spec fn sprites_decoded_from(sprites: Seq<Bitmap>, blob: Seq<u8>) -> bool {
    &&& sprites.len() == WILLY_SPRITE_COUNT
    &&& forall|i: int|
        0 <= i < WILLY_SPRITE_COUNT ==> plain_bitmap(
            #[trigger] sprites[i],
            16,
            16,
            sprite_record(blob, i),
        )
}

/// The caverns decoded from the game data.
pub open spec fn caverns_decoded_from(caverns: Seq<Cavern>, blob: Seq<u8>) -> bool {
    &&& caverns.len() == CAVERN_COUNT
    &&& forall|i: int|
        0 <= i < CAVERN_COUNT ==> {
            &&& (#[trigger] caverns[i]).decoded_from(cavern_record(blob, i))
            &&& caverns[i].wf()
        }
}

/// Everything that is read from the game data: the caverns and the eight
/// 16 by 16 player sprites.
#[derive(Debug)]
pub struct GameData {
    pub caverns: Vec<Cavern>,
    pub willy_sprites: Vec<Bitmap>,
}

impl GameData {
    /// Decodes the player sprites and all the caverns from the game data.
    pub fn from_bytes(blob: &[u8]) -> (r: Result<GameData, DecodeError>)
        ensures
            r.is_ok() <==> holds_sprites(blob@) && caverns_error(blob@).is_none(),
            !holds_sprites(blob@) ==> r == Err::<GameData, DecodeError>(DecodeError::Truncated),
            holds_sprites(blob@) && r.is_err() ==> Some(r->Err_0) == caverns_error(blob@),
            r.is_ok() ==> sprites_decoded_from(r.unwrap().willy_sprites@, blob@)
                && caverns_decoded_from(r.unwrap().caverns@, blob@),
    {
        let willy_sprites = match extract_willy_sprites(blob) {
            Ok(s) => s,
            Err(e) => return Err(e),
        };
        let caverns = match extract_caverns(blob) {
            Ok(c) => c,
            Err(e) => return Err(e),
        };
        Ok(GameData { caverns, willy_sprites })
    }
}

/// Reads the eight 16 by 16 player sprites, 32 bytes each with no
/// attribute byte.
pub fn extract_willy_sprites(blob: &[u8]) -> (r: Result<Vec<Bitmap>, DecodeError>)
    ensures
        r.is_ok() <==> holds_sprites(blob@),
        r.is_err() ==> r == Err::<Vec<Bitmap>, DecodeError>(DecodeError::Truncated),
        r.is_ok() ==> sprites_decoded_from(r.unwrap()@, blob@),
{
    if blob.len() < WILLY_SPRITE_OFFSET + WILLY_SPRITE_SIZE_BYTES * WILLY_SPRITE_COUNT {
        return Err(DecodeError::Truncated);
    }
    let mut result: Vec<Bitmap> = Vec::new();
    let mut pos: usize = WILLY_SPRITE_OFFSET;
    let mut i: usize = 0;
    while i < WILLY_SPRITE_COUNT
        invariant
            i <= WILLY_SPRITE_COUNT,
            pos == WILLY_SPRITE_OFFSET + WILLY_SPRITE_SIZE_BYTES * i,
            holds_sprites(blob@),
            result@.len() == i,
            forall|k: int|
                0 <= k < i ==> plain_bitmap(#[trigger] result@[k], 16, 16, sprite_record(blob@, k)),
        decreases WILLY_SPRITE_COUNT - i,
    {
        let end = pos + WILLY_SPRITE_SIZE_BYTES;
        result.push(Bitmap::create(16, 16, &blob[pos..end]));
        pos = end;
        i = i + 1;
    }
    Ok(result)
}

/// Decodes the twenty cavern records, stopping at the first one that
/// cannot be decoded.
pub fn extract_caverns(blob: &[u8]) -> (r: Result<Vec<Cavern>, DecodeError>)
    ensures
        r.is_ok() <==> caverns_error(blob@).is_none(),
        r.is_err() ==> Some(r->Err_0) == caverns_error(blob@),
        r.is_ok() ==> caverns_decoded_from(r.unwrap()@, blob@),
{
    if blob.len() < CAVERNS_OFFSET + CAVERN_DATA_SIZE_BYTES * CAVERN_COUNT {
        return Err(DecodeError::Truncated);
    }
    let mut caverns: Vec<Cavern> = Vec::new();
    let mut pos: usize = CAVERNS_OFFSET;
    let mut i: usize = 0;
    while i < CAVERN_COUNT
        invariant
            i <= CAVERN_COUNT,
            pos == CAVERNS_OFFSET + CAVERN_DATA_SIZE_BYTES * i,
            holds_caverns(blob@),
            caverns_error(blob@) == first_cavern_error(blob@, i as int),
            caverns@.len() == i,
            forall|k: int|
                0 <= k < i ==> {
                    &&& (#[trigger] caverns@[k]).decoded_from(cavern_record(blob@, k))
                    &&& caverns@[k].wf()
                },
        decreases CAVERN_COUNT - i,
    {
        let end = pos + CAVERN_DATA_SIZE_BYTES;
        let record = &blob[pos..end];
        assert(record@ == cavern_record(blob@, i as int));
        let cavern = match Cavern::try_from_bytes(record) {
            Ok(c) => c,
            Err(e) => return Err(e),
        };
        caverns.push(cavern);
        pos = end;
        i = i + 1;
    }
    Ok(caverns)
}

} // verus!
