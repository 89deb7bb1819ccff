use vstd::prelude::*;

use crate::gamedata::cavern::{
    cell_index, tile_index_of, tile_type_of_index, Cavern, CavernTileType,
};
use crate::gamedata::data::CAVERN_COUNT;
use crate::position::{Position, Relative};

verus! {

/// The number of cells in a cavern: 32 columns by 16 rows.
pub const CELL_COUNT: usize = 512;

/// The crumble level a crumbling floor starts at.
pub const FULL_CRUMBLE: u8 = 7;

/// Whether cell (x, y) lies in the cavern.
pub open spec fn in_cavern(x: int, y: int) -> bool {
    0 <= x < 32 && 0 <= y < 16
}

/// A crumbling floor under a standing player: one level less, or, at level
/// 0, gone. Any other tile is unchanged.
pub open spec fn crumbled(tile: CavernTileType, level: u8) -> (CavernTileType, u8) {
    if tile == CavernTileType::CrumblingFloor {
        if level == 0 {
            (CavernTileType::Background, level)
        } else {
            ((tile, (level - 1) as u8))
        }
    } else {
        (tile, level)
    }
}

/// A crumbling floor at level `level` loses one level per tick of standing
/// on it until it reaches 0, and vanishes on the tick after that; no level
/// ever goes below 0, and no other kind of tile changes.
pub proof fn lemma_crumble_sequence(level: u8, tile: CavernTileType)
    ensures
        level > 0 ==> crumbled(CavernTileType::CrumblingFloor, level) == (
            CavernTileType::CrumblingFloor,
            (level - 1) as u8,
        ),
        crumbled(CavernTileType::CrumblingFloor, 0) == (CavernTileType::Background, 0u8),
        crumbled(tile, level).1 <= level,
        tile != CavernTileType::CrumblingFloor ==> crumbled(tile, level) == (tile, level),
{
}

/// A cell's kind and crumble level after `n` ticks of a player standing on
/// it.
pub open spec fn crumbled_n(tile: CavernTileType, level: u8, n: nat) -> (CavernTileType, u8)
    decreases n,
{
    if n == 0 {
        (tile, level)
    } else {
        let (t, l) = crumbled_n(tile, level, (n - 1) as nat);
        crumbled(t, l)
    }
}

/// A crumbling floor at level `level` stood on for `n` ticks: still a
/// crumbling floor at level `level - n` while `n <= level`, gone at level 0
/// from then on; the level never goes below 0.
pub proof fn lemma_crumble_run(level: u8, n: nat)
    ensures
        crumbled_n(CavernTileType::CrumblingFloor, level, n) == if n <= level {
            (CavernTileType::CrumblingFloor, (level - n) as u8)
        } else {
            (CavernTileType::Background, 0u8)
        },
    decreases n,
{
    if n > 0 {
        lemma_crumble_run(level, (n - 1) as nat);
    }
}

/// Which cavern is being played.
#[derive(Debug, Clone, Copy)]
pub struct CurrentCavern {
    pub number: usize,
}

impl CurrentCavern {
    /// The cavern after a request to go to the next or the previous one:
    /// the next wins, and the number stays within the caverns there are.
    pub fn switch(&mut self, next: bool, previous: bool)
        ensures
            final(self).number == if next && old(self).number < CAVERN_COUNT - 1 {
                old(self).number + 1
            } else if !(next && old(self).number < CAVERN_COUNT - 1) && previous
                && old(self).number > 0 {
                old(self).number - 1
            } else {
                old(self).number as int
            },
    {
        if next && self.number < CAVERN_COUNT - 1 {
            self.number = self.number + 1;
        } else if previous && self.number > 0 {
            self.number = self.number - 1;
        }
    }
}

/// The live state of the cavern being played: the kind of every cell and
/// the crumble level of every cell.
#[derive(Debug)]
pub struct CavernState {
    tile_types: Vec<CavernTileType>,
    crumble_level: Vec<u8>,
}

impl CavernState {
    /// The kind of every cell, row by row.
    pub closed spec fn tiles(&self) -> Seq<CavernTileType> {
        self.tile_types@
    }

    /// The crumble level of every cell, row by row.
    pub closed spec fn levels(&self) -> Seq<u8> {
        self.crumble_level@
    }

    pub open spec fn wf(&self) -> bool {
        self.tiles().len() == CELL_COUNT && self.levels().len() == CELL_COUNT
    }

    /// The kind of cell (x, y); background outside the cavern.
    pub open spec fn tile_at(&self, x: int, y: int) -> CavernTileType {
        if in_cavern(x, y) {
            self.tiles()[cell_index(x, y)]
        } else {
            CavernTileType::Background
        }
    }

    /// Whether any of the cells of kind `kind` around `position` is of tile
    /// kind `tile`.
    pub open spec fn any_relative_is(&self, position: Position, kind: Relative, tile: CavernTileType) -> bool {
        exists|i: int|
            0 <= i < position.relative_cells(kind).len() && self.tile_at(
                #[trigger] position.relative_cells(kind)[i].0,
                position.relative_cells(kind)[i].1,
            ) == tile
    }

    /// The state of `cavern` as it is loaded: each cell has the kind of the
    /// tile bitmap whose colour it has (background if none has), and every
    /// crumble level is full.
    pub open spec fn loaded_from(&self, cavern: &Cavern) -> bool {
        &&& self.wf()
        &&& forall|x: int, y: int|
            in_cavern(x, y) ==> #[trigger] self.tile_at(x, y) == tile_type_of_index(
                match tile_index_of(cavern, x, y) {
                    Some(i) => i as int,
                    None => 0,
                },
            )
        &&& forall|i: int| 0 <= i < CELL_COUNT ==> #[trigger] self.levels()[i] == FULL_CRUMBLE
    }

    /// A cavern of background cells at full crumble level.
    pub fn new() -> (r: CavernState)
        ensures
            r.wf(),
            forall|i: int| 0 <= i < CELL_COUNT ==> #[trigger] r.tiles()[i] == CavernTileType::Background,
            forall|i: int| 0 <= i < CELL_COUNT ==> #[trigger] r.levels()[i] == FULL_CRUMBLE,
    {
        let mut tile_types: Vec<CavernTileType> = Vec::new();
        let mut crumble_level: Vec<u8> = Vec::new();
        let mut i: usize = 0;
        while i < CELL_COUNT
            invariant
                i <= CELL_COUNT,
                tile_types@.len() == i,
                crumble_level@.len() == i,
                forall|k: int| 0 <= k < i ==> #[trigger] tile_types@[k] == CavernTileType::Background,
                forall|k: int| 0 <= k < i ==> #[trigger] crumble_level@[k] == FULL_CRUMBLE,
            decreases CELL_COUNT - i,
        {
            tile_types.push(CavernTileType::Background);
            crumble_level.push(FULL_CRUMBLE);
            i = i + 1;
        }
        CavernState { tile_types, crumble_level }
    }

    /// The state of a cavern as it is loaded.
    pub fn from_cavern(cavern: &Cavern) -> (r: CavernState)
        requires
            cavern.wf(),
        ensures
            r.loaded_from(cavern),
    {
        let mut tile_types: Vec<CavernTileType> = Vec::new();
        let mut crumble_level: Vec<u8> = Vec::new();
        let mut y: u8 = 0;
        while y < 16
            invariant
                cavern.wf(),
                y <= 16,
                tile_types@.len() == 32 * y,
                crumble_level@.len() == 32 * y,
                forall|k: int| 0 <= k < 32 * y ==> #[trigger] crumble_level@[k] == FULL_CRUMBLE,
                forall|cx: int, cy: int|
                    0 <= cx < 32 && 0 <= cy < y ==> #[trigger] tile_types@[cell_index(cx, cy)]
                        == tile_type_of_index(
                        match tile_index_of(cavern, cx, cy) {
                            Some(i) => i as int,
                            None => 0,
                        },
                    ),
            decreases 16 - y,
        {
            let mut x: u8 = 0;
            while x < 32
                invariant
                    cavern.wf(),
                    y < 16,
                    x <= 32,
                    tile_types@.len() == 32 * y + x,
                    crumble_level@.len() == 32 * y + x,
                    forall|k: int| 0 <= k < 32 * y + x ==> #[trigger] crumble_level@[k] == FULL_CRUMBLE,
                    forall|cx: int, cy: int|
                        0 <= cx < 32 && 0 <= cy < 16 && cell_index(cx, cy) < 32 * y + x
                            ==> #[trigger] tile_types@[cell_index(cx, cy)] == tile_type_of_index(
                            match tile_index_of(cavern, cx, cy) {
                                Some(i) => i as int,
                                None => 0,
                            },
                        ),
                decreases 32 - x,
            {
                let index = match cavern.get_bg_sprite_index((x, y)) {
                    Some(i) => i,
                    None => 0,
                };
                tile_types.push(CavernTileType::from_index(index));
                crumble_level.push(FULL_CRUMBLE);
                proof {
                    assert forall|cx: int, cy: int|
                        0 <= cx < 32 && 0 <= cy < 16 && cell_index(cx, cy) < 32 * y + x + 1 implies
                        #[trigger] tile_types@[cell_index(cx, cy)] == tile_type_of_index(
                            match tile_index_of(cavern, cx, cy) {
                                Some(i) => i as int,
                                None => 0,
                            },
                        ) by {
                        if cell_index(cx, cy) == 32 * y + x {
                            assert(cx == x && cy == y);
                        }
                    }
                }
                x = x + 1;
            }
            y = y + 1;
        }
        CavernState { tile_types, crumble_level }
    }

    /// The kind of cell `pos`; background outside the cavern.
    pub fn get_tile_type(&self, pos: (i32, i32)) -> (r: CavernTileType)
        requires
            self.wf(),
        ensures
            r == self.tile_at(pos.0 as int, pos.1 as int),
    {
        let (x, y) = pos;
        if 0 <= x && x < 32 && 0 <= y && y < 16 {
            self.tile_types[(y * 32 + x) as usize]
        } else {
            CavernTileType::Background
        }
    }

    /// The crumble level of cell `pos`.
    pub fn get_crumble_level(&self, pos: (i32, i32)) -> (r: u8)
        requires
            self.wf(),
            in_cavern(pos.0 as int, pos.1 as int),
        ensures
            r == self.levels()[cell_index(pos.0 as int, pos.1 as int)],
    {
        let (x, y) = pos;
        self.crumble_level[(y * 32 + x) as usize]
    }

    /// The crumble frame cell `pos` shows: for a crumbling floor that has
    /// begun to crumble, `7 - level`; none otherwise.
    pub fn crumble_frame(&self, pos: (i32, i32)) -> (r: Option<usize>)
        requires
            self.wf(),
        ensures
            r == if self.tile_at(pos.0 as int, pos.1 as int) == CavernTileType::CrumblingFloor
                && self.levels()[cell_index(pos.0 as int, pos.1 as int)] < FULL_CRUMBLE {
                Some((FULL_CRUMBLE - self.levels()[cell_index(pos.0 as int, pos.1 as int)]) as usize)
            } else {
                None::<usize>
            },
    {
        if self.get_tile_type(pos) == CavernTileType::CrumblingFloor {
            let level = self.get_crumble_level(pos);
            if level < FULL_CRUMBLE {
                return Some((FULL_CRUMBLE - level) as usize);
            }
        }
        None
    }

    /// Whether any of the cells of kind `relative` around `position` is of
    /// tile kind `kind`.
    pub fn is_type(&self, position: &Position, relative: Relative, kind: CavernTileType) -> (r: bool)
        requires
            self.wf(),
        ensures
            r == self.any_relative_is(*position, relative, kind),
    {
        let cells = position.relative(relative);
        let mut i: usize = 0;
        while i < cells.len()
            invariant
                self.wf(),
                i <= cells@.len(),
                cells@.len() == position.relative_cells(relative).len(),
                forall|j: int|
                    0 <= j < cells@.len() ==> (#[trigger] cells@[j]).0 as int
                        == position.relative_cells(relative)[j].0 && cells@[j].1 as int
                        == position.relative_cells(relative)[j].1,
                forall|j: int|
                    0 <= j < i ==> self.tile_at(
                        #[trigger] position.relative_cells(relative)[j].0,
                        position.relative_cells(relative)[j].1,
                    ) != kind,
            decreases cells@.len() - i,
        {
            if self.get_tile_type(cells[i]) == kind {
                assert(self.tile_at(
                    position.relative_cells(relative)[i as int].0,
                    position.relative_cells(relative)[i as int].1,
                ) == kind);
                return true;
            }
            i = i + 1;
        }
        false
    }

    /// Wears down the crumbling floors under a player that stands on them:
    /// each such cell loses a level, or, at level 0, turns to background.
    /// Nothing changes under a player in the air.
    pub fn update_crumble(&mut self, position: &Position, airborne: bool)
        requires
            old(self).wf(),
        ensures
            final(self).wf(),
            forall|i: int|
                0 <= i < CELL_COUNT ==> (#[trigger] final(self).tiles()[i], final(self).levels()[i])
                    == if !airborne && is_below_cell(*position, i) {
                    crumbled(old(self).tiles()[i], old(self).levels()[i])
                } else {
                    (old(self).tiles()[i], old(self).levels()[i])
                },
    {
        if airborne {
            return;
        }
        let cells = position.relative(Relative::Below);
        let ghost start_tiles = self.tiles();
        let ghost start_levels = self.levels();
        let ghost below = position.relative_cells(Relative::Below);
        assert(below.len() == 2);
        let mut n: usize = 0;
        while n < 2
            invariant
                self.wf(),
                n <= 2,
                cells@.len() == 2,
                below == position.relative_cells(Relative::Below),
                forall|j: int|
                    0 <= j < 2 ==> (#[trigger] cells@[j]).0 as int == below[j].0
                        && cells@[j].1 as int == below[j].1,
                forall|i: int|
                    0 <= i < CELL_COUNT ==> (#[trigger] self.tiles()[i], self.levels()[i])
                        == if is_below_cell_among(below, i, n as int) {
                        crumbled(start_tiles[i], start_levels[i])
                    } else {
                        (start_tiles[i], start_levels[i])
                    },
            decreases 2 - n,
        {
            let (cx, cy) = cells[n];
            if 0 <= cx && cx < 32 && 0 <= cy && cy < 16 {
                let index = (cy * 32 + cx) as usize;
                let tile = self.tile_types[index];
                if tile == CavernTileType::CrumblingFloor {
                    let level = self.crumble_level[index];
                    if level == 0 {
                        self.tile_types.set(index, CavernTileType::Background);
                    } else {
                        self.crumble_level.set(index, level - 1);
                    }
                }
            }
            n = n + 1;
        }
    }
}

/// Whether grid index `i` is that of one of the first `n` of `cells` that
/// lie in the cavern.
pub open spec fn is_below_cell_among(cells: Seq<(int, int)>, i: int, n: int) -> bool {
    exists|j: int|
        0 <= j < n && in_cavern(#[trigger] cells[j].0, cells[j].1) && cell_index(cells[j].0, cells[j].1)
            == i
}

/// Whether grid index `i` is that of a cell, in the cavern, under the
/// actor at `position`.
pub open spec fn is_below_cell(position: Position, i: int) -> bool {
    is_below_cell_among(position.relative_cells(Relative::Below), i, 2)
}

} // verus!
