use vstd::prelude::*;

use crate::position::{coord_fits, step_delta, Position};

verus! {

/// A horizontal direction.
#[derive(Debug, Clone, Copy, PartialEq, Eq, Structural)]
pub enum Direction {
    Left,
    Right,
}

/// `value`, wrapped round to `ub` below `lb` and to `lb` above `ub`.
pub open spec fn clamp_spec(value: int, lb: int, ub: int) -> int {
    if value < lb {
        ub
    } else if value > ub {
        lb
    } else {
        value
    }
}

/// Wraps `value` round: to `ub` when it is below `lb`, to `lb` when it is
/// above `ub`; otherwise it is kept.
pub fn clamp(value: usize, lb: usize, ub: usize) -> (r: usize)
    ensures
        r == clamp_spec(value as int, lb as int, ub as int),
{
    if value < lb {
        ub
    } else if value > ub {
        lb
    } else {
        value
    }
}

/// The facing of an animation frame: frames 0 to 3 face right, the others
/// left.
pub open spec fn direction_of(frame: usize) -> Direction {
    if frame < 4 {
        Direction::Right
    } else {
        Direction::Left
    }
}

/// The frame after one step: the next frame within the facing's block of
/// four, wrapping round.
pub open spec fn stepped_frame(frame: usize) -> usize {
    match direction_of(frame) {
        Direction::Left => clamp_spec(frame - 1, 4, 7) as usize,
        Direction::Right => clamp_spec(frame + 1, 0, 3) as usize,
    }
}

/// The same frame in the other facing's block.
pub open spec fn turned_frame(frame: usize) -> usize {
    match direction_of(frame) {
        Direction::Left => (frame - 4) as usize,
        Direction::Right => (frame + 4) as usize,
    }
}

/// The frame facing `direction`: turned if it faces the other way.
pub open spec fn frame_facing(frame: usize, direction: Direction) -> usize {
    if direction_of(frame) == direction {
        frame
    } else {
        turned_frame(frame)
    }
}

/// Whether an actor is walking, and its animation frame, which also gives
/// its facing.
#[derive(Debug, Clone, Copy)]
pub struct HorizontalMotion {
    pub walking: bool,
    pub current_frame: usize,
}

impl HorizontalMotion {
    /// The facing that the current frame gives.
    pub fn direction(&self) -> (r: Direction)
        ensures
            r == direction_of(self.current_frame),
    {
        if self.current_frame < 4 {
            Direction::Right
        } else {
            Direction::Left
        }
    }

    /// A motion that stands still at frame 0.
    pub fn frozen() -> (r: HorizontalMotion)
        ensures
            !r.walking,
            r.current_frame == 0,
    {
        HorizontalMotion { walking: false, current_frame: 0 }
    }

    /// Takes one step: moves `pos` two pixels in the facing direction and
    /// advances the frame.
    pub fn step(&mut self, pos: &mut Position)
        requires
            coord_fits(old(pos).zx_pixel_pos.0, 2),
        ensures
            final(pos).x() == old(pos).x() + step_delta(direction_of(old(self).current_frame)),
            final(pos).y() == old(pos).y(),
            final(pos).layer == old(pos).layer,
            final(self).current_frame == stepped_frame(old(self).current_frame),
            final(self).walking == old(self).walking,
    {
        let direction = self.direction();
        pos.step(direction);
        match direction {
            Direction::Left => {
                self.current_frame = clamp(self.current_frame - 1, 4, 7);
            },
            Direction::Right => {
                self.current_frame = clamp(self.current_frame + 1, 0, 3);
            },
        }
    }

    /// Turns round, keeping the place in the animation.
    pub fn change_direction(&mut self)
        ensures
            final(self).current_frame == turned_frame(old(self).current_frame),
            final(self).walking == old(self).walking,
    {
        match self.direction() {
            Direction::Left => {
                self.current_frame = self.current_frame - 4;
            },
            Direction::Right => {
                self.current_frame = self.current_frame + 4;
            },
        }
    }

    /// Faces `direction`.
    pub fn set_direction(&mut self, direction: Direction)
        ensures
            final(self).current_frame == frame_facing(old(self).current_frame, direction),
            old(self).current_frame < 8 ==> direction_of(final(self).current_frame) == direction,
            final(self).walking == old(self).walking,
    {
        let current_direction = self.direction();
        if current_direction != direction {
            self.change_direction();
        }
    }
}

} // verus!
