use vstd::prelude::*;

use crate::gamedata::cavern;
use crate::position::{Layer, Position};

verus! {

/// The number of ticks between two flashes of an unlocked portal.
pub const TICKS_PER_FLASH: usize = 4;

/// The exit portal of the cavern being played.
#[derive(Debug, Clone, Copy)]
pub struct Portal {
    pub unlocked: bool,
    pub position: Position,
    /// Whether the portal is drawn with ink and paper exchanged.
    pub inverted: bool,
    /// Ticks left until the next flash.
    pub countdown: usize,
}

/// A portal after one tick: an unlocked one counts down and, at zero,
/// swaps its colours and starts counting again; a locked one is unchanged.
pub open spec fn flashed(p: Portal) -> Portal {
    if !p.unlocked {
        p
    } else if p.countdown > 1 {
        Portal { countdown: (p.countdown - 1) as usize, ..p }
    } else {
        Portal { countdown: TICKS_PER_FLASH, inverted: !p.inverted, ..p }
    }
}

impl Portal {
    /// The countdown to the next flash is running.
    pub open spec fn wf(&self) -> bool {
        1 <= self.countdown <= TICKS_PER_FLASH
    }

    /// A locked portal at the cell its record gives.
    pub fn new(data: &cavern::Portal) -> (r: Portal)
        ensures
            r.wf(),
            !r.unlocked,
            !r.inverted,
            r.countdown == TICKS_PER_FLASH,
            r.position.layer == Layer::Portal,
            r.position.x() == 8 * data.position.0,
            r.position.y() == 8 * data.position.1,
    {
        Portal {
            unlocked: false,
            position: Position::at_char_pos(Layer::Portal, data.position),
            inverted: false,
            countdown: TICKS_PER_FLASH,
        }
    }

    /// Unlocks the portal.
    pub fn unlock(&mut self)
        ensures
            final(self).unlocked,
            final(self).inverted == old(self).inverted,
            final(self).countdown == old(self).countdown,
            final(self).position == old(self).position,
    {
        self.unlocked = true;
    }

    /// One tick of flashing: an unlocked portal counts down and, at zero,
    /// swaps its colours and starts counting again. A locked one does not
    /// change.
    pub fn flash_if_unlocked(&mut self)
        requires
            old(self).wf(),
        ensures
            final(self).wf(),
            *final(self) == flashed(*old(self)),
    {
        if self.unlocked {
            self.countdown = self.countdown - 1;
            if self.countdown == 0 {
                self.inverted = !self.inverted;
                self.countdown = TICKS_PER_FLASH;
            }
        }
    }
}

} // verus!
