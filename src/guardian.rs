use vstd::prelude::*;

use crate::actors::{direction_of, stepped_frame, turned_frame, Direction, HorizontalMotion};
use crate::gamedata::cavern;
use crate::position::{cell_of, coord_fits, step_delta, Layer, Position};

verus! {

/// A guardian of the cavern being played.
#[derive(Debug, Clone, Copy)]
pub struct Guardian {
    pub data: cavern::Guardian,
    pub position: Position,
    pub motion: HorizontalMotion,
}

/// Whether a guardian at pixel column `x` with frame `frame` has gone past
/// the bound on its facing side: its column, `x / 8` rounded down, lies
/// right of the right bound or left of the left bound.
pub open spec fn past_bound(x: int, frame: usize, left_bound: u8, right_bound: u8) -> bool {
    (direction_of(frame) == Direction::Right && x >= 8 * (right_bound + 1)) || (direction_of(frame)
        == Direction::Left && x < 8 * left_bound)
}

/// Pixel column and frame after a guardian at `x` with frame `frame` has
/// gone past its bound: turned round and one step back.
pub open spec fn turned_back(x: int, frame: usize) -> (int, usize) {
    let t = turned_frame(frame);
    (x + step_delta(direction_of(t)), stepped_frame(t))
}

/// Pixel column and frame of a guardian after one tick: a step in its
/// facing direction, then, if that took it past its bound, a turn and a
/// step back.
pub open spec fn patrol_step(x: int, frame: usize, left_bound: u8, right_bound: u8) -> (int, usize) {
    let x1 = x + step_delta(direction_of(frame));
    let f1 = stepped_frame(frame);
    if past_bound(x1, f1, left_bound, right_bound) {
        turned_back(x1, f1)
    } else {
        (x1, f1)
    }
}

/// A guardian where its record places it: at its start cell, walking, at
/// its first frame; one facing left starts six pixels into the cell.
pub open spec fn spawned(data: cavern::Guardian) -> Guardian {
    let dx: int = if direction_of(data.first_animation_frame as usize) == Direction::Left {
        6
    } else {
        0
    };
    Guardian {
        data,
        position: Position {
            layer: Layer::Characters,
            zx_pixel_pos: ((8 * data.start_pos.0 + dx) as i32, (8 * data.start_pos.1) as i32),
        },
        motion: HorizontalMotion { walking: true, current_frame: data.first_animation_frame as usize },
    }
}

/// A guardian after one tick of patrol.
pub open spec fn patrolled(g: Guardian) -> Guardian {
    let (x, f) = patrol_step(
        g.position.x(),
        g.motion.current_frame,
        g.data.left_bound,
        g.data.right_bound,
    );
    Guardian {
        position: Position { zx_pixel_pos: (x as i32, g.position.zx_pixel_pos.1), ..g.position },
        motion: HorizontalMotion { current_frame: f, ..g.motion },
        ..g
    }
}

impl Guardian {
    /// A guardian where its record places it.
    pub fn spawn(data: &cavern::Guardian) -> (r: Guardian)
        ensures
            r == spawned(*data),
    {
        let mut position = Position::at_char_pos(Layer::Characters, data.start_pos);
        let motion = HorizontalMotion { walking: true, current_frame: data.first_animation_frame as usize };
        if motion.direction() == Direction::Left {
            position.step(Direction::Right);
            position.step(Direction::Right);
            position.step(Direction::Right);
        }
        Guardian { data: *data, position, motion }
    }

    /// Takes the guardian's step for this tick.
    pub fn move_guardian(&mut self)
        requires
            coord_fits(old(self).position.zx_pixel_pos.0, 2),
        ensures
            final(self).position.x() == old(self).position.x() + step_delta(
                direction_of(old(self).motion.current_frame),
            ),
            final(self).position.y() == old(self).position.y(),
            final(self).position.layer == old(self).position.layer,
            final(self).motion.current_frame == stepped_frame(old(self).motion.current_frame),
            final(self).motion.walking == old(self).motion.walking,
            final(self).data == old(self).data,
    {
        self.motion.step(&mut self.position);
    }

    /// Turns the guardian round, with one step back, if it has gone past
    /// the bound on its facing side.
    pub fn change_direction(&mut self)
        requires
            coord_fits(old(self).position.zx_pixel_pos.0, 2),
        ensures
            ({
                let x = old(self).position.x();
                let f = old(self).motion.current_frame;
                let (nx, nf) = if past_bound(x, f, old(self).data.left_bound, old(self).data.right_bound) {
                    turned_back(x, f)
                } else {
                    (x, f)
                };
                &&& final(self).position.x() == nx
                &&& final(self).motion.current_frame == nf
            }),
            final(self).position.y() == old(self).position.y(),
            final(self).position.layer == old(self).position.layer,
            final(self).motion.walking == old(self).motion.walking,
            final(self).data == old(self).data,
    {
        let x = self.position.zx_pixel_pos.0;
        let direction = self.motion.direction();
        if (direction == Direction::Right && x >= 8 * (self.data.right_bound as i32 + 1)) || (
        direction == Direction::Left && x < 8 * self.data.left_bound as i32) {
            self.motion.change_direction();
            self.motion.step(&mut self.position);
        }
    }

    /// One tick of patrol: a step, then a turn at the bound.
    pub fn tick(&mut self)
        requires
            coord_fits(old(self).position.zx_pixel_pos.0, 4),
        ensures
            *final(self) == patrolled(*old(self)),
    {
        self.move_guardian();
        self.change_direction();
    }
}

/// A guardian never leaves its patrol range: one facing right whose column
/// is not past its right bound is not past it after a tick either, and if
/// the tick's step crossed the bound it now faces left; the same holds the
/// other way round at the left bound, also for a left bound of column 0.
/// Either way the pixel column stays non-negative.
pub proof fn lemma_patrol_stays_within_bounds(x: int, frame: usize, left_bound: u8, right_bound: u8)
    requires
        0 <= x,
        frame < 8,
    ensures
        direction_of(frame) == Direction::Right && x < 8 * (right_bound + 1) ==> {
            let (nx, nf) = patrol_step(x, frame, left_bound, right_bound);
            &&& 0 <= nx < 8 * (right_bound + 1)
            &&& cell_of(nx) <= right_bound
            &&& x + 2 >= 8 * (right_bound + 1) ==> direction_of(nf) == Direction::Left
        },
        direction_of(frame) == Direction::Left && x >= 8 * left_bound ==> {
            let (nx, nf) = patrol_step(x, frame, left_bound, right_bound);
            &&& nx >= 8 * left_bound
            &&& nx >= 0
            &&& cell_of(nx) >= left_bound
            &&& x - 2 < 8 * left_bound ==> direction_of(nf) == Direction::Right
        },
{
}

} // verus!
