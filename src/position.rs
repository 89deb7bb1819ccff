use vstd::prelude::*;

use crate::actors::Direction;

verus! {

/// The layer a sprite is drawn at: its draw order.
#[derive(Debug, Clone, Copy, PartialEq, Eq, Structural)]
pub enum Layer {
    Tiles,
    Items,
    Characters,
    Portal,
    Debug,
}

/// Cells next to an actor's cell.
#[derive(Debug, Clone, Copy, PartialEq, Eq, Structural)]
pub enum Relative {
    /// The two cells under a two-cell-tall, two-cell-wide actor.
    Below,
    /// The four cells that the actor's sprite covers.
    Inside,
    /// The two cells to the left of the actor.
    Left,
    /// The two cells to the right of the actor.
    Right,
}

/// The character cell that holds pixel coordinate `v`: `v / 8`, held to the
/// range of a byte as a conversion of the coordinate would.
pub open spec fn cell_of(v: int) -> int {
    if v < 0 {
        0
    } else if v / 8 > 255 {
        255
    } else {
        v / 8
    }
}

/// How far a step in `direction` moves horizontally.
pub open spec fn step_delta(direction: Direction) -> int {
    match direction {
        Direction::Left => -2,
        Direction::Right => 2,
    }
}

/// A coordinate that can move by at most `margin` pixels without leaving
/// the range of `i32`.
pub open spec fn coord_fits(v: i32, margin: int) -> bool {
    i32::MIN + margin <= v && v <= i32::MAX - margin
}

/// An actor's position: the top left pixel of its sprite in the screen's
/// pixel space (x from 0 to 255, y from 0 to 191, y growing downwards).
#[derive(Debug, Clone, Copy)]
pub struct Position {
    pub layer: Layer,
    pub zx_pixel_pos: (i32, i32),
}

impl Position {
    pub open spec fn x(&self) -> int {
        self.zx_pixel_pos.0 as int
    }

    pub open spec fn y(&self) -> int {
        self.zx_pixel_pos.1 as int
    }

    /// The cell that holds the position.
    pub open spec fn cell(&self) -> (int, int) {
        (cell_of(self.x()), cell_of(self.y()))
    }

    /// The cells of kind `kind` around the position's cell.
    pub open spec fn relative_cells(&self, kind: Relative) -> Seq<(int, int)> {
        let (x, y) = self.cell();
        match kind {
            Relative::Below => seq![(x, y + 2), (x + 1, y + 2)],
            Relative::Inside => seq![(x, y), (x + 1, y), (x, y + 1), (x + 1, y + 1)],
            Relative::Left => seq![(x - 1, y), (x - 1, y + 1)],
            Relative::Right => seq![(x + 2, y), (x + 2, y + 1)],
        }
    }

    /// A position at the top left pixel of cell `pos`.
    pub fn at_char_pos(layer: Layer, pos: (u8, u8)) -> (r: Position)
        ensures
            r.layer == layer,
            r.x() == 8 * pos.0,
            r.y() == 8 * pos.1,
    {
        Position { layer, zx_pixel_pos: (pos.0 as i32 * 8, pos.1 as i32 * 8) }
    }

    /// The pixel coordinates.
    pub fn pixel(&self) -> (r: (i32, i32))
        ensures
            r == self.zx_pixel_pos,
    {
        self.zx_pixel_pos
    }

    /// Whether the top of the actor is on a cell boundary.
    pub fn is_vertically_cell_aligned(&self) -> (r: bool)
        ensures
            r == (self.y() % 8 == 0),
    {
        let y = self.zx_pixel_pos.1;
        if y >= 0 {
            y % 8 == 0
        } else {
            let m: i64 = -(y as i64);
            m % 8 == 0
        }
    }

    /// Moves two pixels in `direction`.
    pub fn step(&mut self, direction: Direction)
        requires
            coord_fits(old(self).zx_pixel_pos.0, 2),
        ensures
            final(self).x() == old(self).x() + step_delta(direction),
            final(self).y() == old(self).y(),
            final(self).layer == old(self).layer,
    {
        let (x, y) = self.zx_pixel_pos;
        let nx = match direction {
            Direction::Left => x - 2,
            Direction::Right => x + 2,
        };
        self.zx_pixel_pos = (nx, y);
    }

    /// Whether a step in `direction` would move into another cell.
    pub fn will_change_cell(&self, direction: Direction) -> (r: bool)
        requires
            coord_fits(self.zx_pixel_pos.0, 2),
        ensures
            r == (cell_of(self.x() + step_delta(direction)) != cell_of(self.x())),
    {
        let mut moved = *self;
        moved.step(direction);
        let (cell_x, _) = self.char_pos();
        let (new_x, _) = moved.char_pos();
        new_x != cell_x
    }

    /// Rises by `distance` pixels; a negative distance falls.
    pub fn jump(&mut self, distance: i32)
        requires
            i32::MIN <= old(self).y() - distance <= i32::MAX,
        ensures
            final(self).y() == old(self).y() - distance,
            final(self).x() == old(self).x(),
            final(self).layer == old(self).layer,
    {
        let (x, y) = self.zx_pixel_pos;
        self.zx_pixel_pos = (x, y - distance);
    }

    /// The cell that holds the position.
    pub fn char_pos(&self) -> (r: (u8, u8))
        ensures
            r.0 as int == self.cell().0,
            r.1 as int == self.cell().1,
    {
        (cell_coord(self.zx_pixel_pos.0), cell_coord(self.zx_pixel_pos.1))
    }

    /// Moves to the left edge of column `x`.
    pub fn set_char_x(&mut self, x: u8)
        ensures
            final(self).x() == 8 * x,
            final(self).y() == old(self).y(),
            final(self).layer == old(self).layer,
    {
        self.zx_pixel_pos.0 = x as i32 * 8;
    }

    /// Moves to the top edge of row `y`.
    pub fn set_char_y(&mut self, y: u8)
        ensures
            final(self).y() == 8 * y,
            final(self).x() == old(self).x(),
            final(self).layer == old(self).layer,
    {
        self.zx_pixel_pos.1 = y as i32 * 8;
    }

    /// Moves to the top left pixel of cell `pos`.
    pub fn set_char_pos(&mut self, pos: (u8, u8))
        ensures
            final(self).x() == 8 * pos.0,
            final(self).y() == 8 * pos.1,
            final(self).layer == old(self).layer,
    {
        self.zx_pixel_pos = (pos.0 as i32 * 8, pos.1 as i32 * 8);
    }

    /// The cells of kind `kind` around the position's cell.
    pub fn relative(&self, kind: Relative) -> (r: Vec<(i32, i32)>)
        ensures
            r@.len() == self.relative_cells(kind).len(),
            forall|i: int|
                0 <= i < r@.len() ==> (#[trigger] r@[i]).0 as int == self.relative_cells(
                    kind,
                )[i].0 && r@[i].1 as int == self.relative_cells(kind)[i].1,
    {
        let (cx, cy) = self.char_pos();
        let x = cx as i32;
        let y = cy as i32;
        let mut positions: Vec<(i32, i32)> = Vec::new();
        match kind {
            Relative::Below => {
                positions.push((x, y + 2));
                positions.push((x + 1, y + 2));
            },
            Relative::Inside => {
                positions.push((x, y));
                positions.push((x + 1, y));
                positions.push((x, y + 1));
                positions.push((x + 1, y + 1));
            },
            Relative::Left => {
                positions.push((x - 1, y));
                positions.push((x - 1, y + 1));
            },
            Relative::Right => {
                positions.push((x + 2, y));
                positions.push((x + 2, y + 1));
            },
        }
        positions
    }
}

/// The cell coordinate of pixel coordinate `v`.
pub fn cell_coord(v: i32) -> (r: u8)
    ensures
        r as int == cell_of(v as int),
{
    if v < 0 {
        0
    } else if v / 8 > 255 {
        255
    } else {
        (v / 8) as u8
    }
}

} // verus!
