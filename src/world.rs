use vstd::prelude::*;

use crate::actors::HorizontalMotion;
use crate::cavern::{crumbled, is_below_cell, CavernState, CELL_COUNT};
use crate::gamedata::cavern::Cavern;
use crate::guardian::{patrolled, spawned, Guardian};
use crate::item::{collect_items, Item};
use crate::portal::{flashed, Portal, TICKS_PER_FLASH};
use crate::position::{coord_fits, Layer, Position, Relative};
use crate::willy::{
    check_collisions, check_drop, check_landing, check_wall_collision, dropped, landed, move_willy,
    moved, touches_nasty, wall_checked, AirborneStatus, KeyboardState, Willy,
};

verus! {

/// The cell the player starts a cavern in.
pub const WILLY_START_X: u8 = 2;

pub const WILLY_START_Y: u8 = 13;

/// Everything that changes while a cavern is played.
#[derive(Debug)]
pub struct World {
    pub cavern: CavernState,
    pub willy: Willy,
    pub willy_position: Position,
    pub willy_motion: HorizontalMotion,
    pub guardians: Vec<Guardian>,
    pub items: Vec<Item>,
    pub portal: Portal,
}

/// An item after a tick in which the player covered `cells`: collected as
/// `collect_items` says, and one animation frame further.
pub open spec fn item_ticked(items: Seq<Item>, cells: Seq<(int, int)>, j: int) -> Item {
    Item { frame: ((items[j].frame + 1) % 4) as usize, ..collect_items(items, cells)[j] }
}

impl World {
    /// The shape every tick keeps.
    pub open spec fn wf(&self) -> bool {
        &&& self.cavern.wf()
        &&& self.portal.wf()
        &&& forall|j: int| 0 <= j < self.items@.len() ==> (#[trigger] self.items@[j]).frame < 4
    }

    /// The actors are far enough from the ends of the coordinate range for
    /// one more tick.
    pub open spec fn coords_fit(&self) -> bool {
        &&& coord_fits(self.willy_position.zx_pixel_pos.0, 2)
        &&& coord_fits(self.willy_position.zx_pixel_pos.1, 4)
        &&& forall|j: int|
            0 <= j < self.guardians@.len() ==> coord_fits(
                (#[trigger] self.guardians@[j]).position.zx_pixel_pos.0,
                4,
            )
    }

    /// Whether the actors are far enough from the ends of the coordinate
    /// range for one more tick.
    pub fn in_range(&self) -> (r: bool)
        ensures
            r == self.coords_fit(),
    {
        let (x, y) = self.willy_position.zx_pixel_pos;
        if !(i32::MIN + 2 <= x && x <= i32::MAX - 2 && i32::MIN + 4 <= y && y <= i32::MAX - 4) {
            return false;
        }
        let mut j: usize = 0;
        while j < self.guardians.len()
            invariant
                j <= self.guardians@.len(),
                forall|k: int|
                    0 <= k < j ==> coord_fits(
                        (#[trigger] self.guardians@[k]).position.zx_pixel_pos.0,
                        4,
                    ),
            decreases self.guardians@.len() - j,
        {
            let gx = self.guardians[j].position.zx_pixel_pos.0;
            if !(i32::MIN + 4 <= gx && gx <= i32::MAX - 4) {
                return false;
            }
            j = j + 1;
        }
        true
    }

    /// The world at the start of `cavern`: its tiles loaded, the player on
    /// the ground at its start cell, the guardians at their start cells,
    /// no item collected and the portal locked.
    pub fn load(cavern: &Cavern) -> (r: World)
        requires
            cavern.wf(),
        ensures
            r.wf(),
            r.cavern.loaded_from(cavern),
            r.willy.airborne_status == AirborneStatus::NotJumpingOrFalling,
            r.willy.jump_counter == 0,
            r.willy.can_move_left && r.willy.can_move_right,
            r.willy_position.layer == Layer::Characters,
            r.willy_position.x() == 8 * WILLY_START_X,
            r.willy_position.y() == 8 * WILLY_START_Y,
            !r.willy_motion.walking,
            r.willy_motion.current_frame == 0,
            r.guardians@.len() == cavern.guardians@.len(),
            forall|j: int|
                0 <= j < r.guardians@.len() ==> #[trigger] r.guardians@[j] == spawned(
                    cavern.guardians@[j],
                ),
            r.items@.len() == cavern.items@.len(),
            forall|j: int|
                0 <= j < r.items@.len() ==> #[trigger] r.items@[j] == (Item {
                    data: cavern.items@[j],
                    collected: false,
                    frame: 0,
                }),
            !r.portal.unlocked,
            !r.portal.inverted,
            r.portal.countdown == TICKS_PER_FLASH,
            r.portal.position.layer == Layer::Portal,
            r.portal.position.x() == 8 * cavern.portal.position.0,
            r.portal.position.y() == 8 * cavern.portal.position.1,
    {
        let state = CavernState::from_cavern(cavern);
        let mut guardians: Vec<Guardian> = Vec::new();
        let mut j: usize = 0;
        while j < cavern.guardians.len()
            invariant
                j <= cavern.guardians@.len(),
                guardians@.len() == j,
                forall|k: int|
                    0 <= k < j ==> #[trigger] guardians@[k] == spawned(cavern.guardians@[k]),
            decreases cavern.guardians@.len() - j,
        {
            guardians.push(Guardian::spawn(&cavern.guardians[j]));
            j = j + 1;
        }
        let mut items: Vec<Item> = Vec::new();
        let mut k: usize = 0;
        while k < cavern.items.len()
            invariant
                k <= cavern.items@.len(),
                items@.len() == k,
                forall|m: int|
                    0 <= m < k ==> #[trigger] items@[m] == (Item {
                        data: cavern.items@[m],
                        collected: false,
                        frame: 0,
                    }),
            decreases cavern.items@.len() - k,
        {
            items.push(Item::new(cavern.items[k]));
            k = k + 1;
        }
        World {
            cavern: state,
            willy: Willy::new(),
            willy_position: Position::at_char_pos(Layer::Characters, (WILLY_START_X, WILLY_START_Y)),
            willy_motion: HorizontalMotion::frozen(),
            guardians,
            items,
            portal: Portal::new(&cavern.portal),
        }
    }

    /// One tick of the world, in a fixed order: the player's walls, its
    /// movement, what it touches, the check for ground under it and for a
    /// landing; then the guardians; then the crumbling floors under the
    /// player; then the portal and the item animations. Returns whether the
    /// player touched a hazard.
    pub fn tick(&mut self, keys: &KeyboardState) -> (hazard: bool)
        requires
            old(self).wf(),
            old(self).coords_fit(),
        ensures
            final(self).wf(),
            ({
                let s = old(self);
                let w0 = wall_checked(&s.cavern, s.willy_position, s.willy);
                let (w1, p1, m1) = moved(*keys, w0, s.willy_position, s.willy_motion);
                let (w2, m2) = dropped(&s.cavern, w1, m1, p1);
                let (w3, m3) = landed(&s.cavern, w2, m2, p1);
                let inside = p1.relative_cells(Relative::Inside);
                &&& hazard == touches_nasty(&s.cavern, p1)
                &&& final(self).willy == w3
                &&& final(self).willy_motion == m3
                &&& final(self).willy_position == p1
                &&& final(self).items@.len() == s.items@.len()
                &&& forall|j: int|
                    0 <= j < s.items@.len() ==> #[trigger] final(self).items@[j] == item_ticked(
                        s.items@,
                        inside,
                        j,
                    )
                &&& forall|i: int|
                    0 <= i < CELL_COUNT ==> (
                    #[trigger] final(self).cavern.tiles()[i],
                    final(self).cavern.levels()[i],
                    ) == if !w3.airborne_status.is_airborne() && is_below_cell(p1, i) {
                        crumbled(s.cavern.tiles()[i], s.cavern.levels()[i])
                    } else {
                        (s.cavern.tiles()[i], s.cavern.levels()[i])
                    }
            }),
            final(self).guardians@.len() == old(self).guardians@.len(),
            forall|j: int|
                0 <= j < old(self).guardians@.len() ==> #[trigger] final(self).guardians@[j]
                    == patrolled(old(self).guardians@[j]),
            final(self).portal == flashed(old(self).portal),
    {
        check_wall_collision(&self.cavern, &self.willy_position, &mut self.willy);
        move_willy(keys, &mut self.willy, &mut self.willy_position, &mut self.willy_motion);
        let hazard = check_collisions(&self.cavern, &self.willy_position, &mut self.items);
        check_drop(&self.cavern, &mut self.willy, &mut self.willy_motion, &self.willy_position);
        check_landing(&self.cavern, &mut self.willy, &mut self.willy_motion, &self.willy_position);

        tick_guardians(&mut self.guardians);

        let airborne = self.willy.airborne_status.is_airborne();
        self.cavern.update_crumble(&self.willy_position, airborne);
        self.portal.flash_if_unlocked();

        cycle_items(&mut self.items);
        hazard
    }

    /// Unlocks the portal.
    pub fn unlock_portal(&mut self)
        ensures
            final(self).portal.unlocked,
            final(self).portal.countdown == old(self).portal.countdown,
            final(self).portal.inverted == old(self).portal.inverted,
            final(self).portal.position == old(self).portal.position,
            final(self).cavern == old(self).cavern,
            final(self).willy == old(self).willy,
            final(self).willy_position == old(self).willy_position,
            final(self).willy_motion == old(self).willy_motion,
            final(self).guardians == old(self).guardians,
            final(self).items == old(self).items,
    {
        self.portal.unlock();
    }
}

/// One tick of patrol for every guardian.
fn tick_guardians(guardians: &mut Vec<Guardian>)
    requires
        forall|k: int|
            0 <= k < old(guardians)@.len() ==> coord_fits(
                (#[trigger] old(guardians)@[k]).position.zx_pixel_pos.0,
                4,
            ),
    ensures
        final(guardians)@.len() == old(guardians)@.len(),
        forall|k: int|
            0 <= k < old(guardians)@.len() ==> #[trigger] final(guardians)@[k] == patrolled(
                old(guardians)@[k],
            ),
{
    let ghost before = guardians@;
    let mut j: usize = 0;
    while j < guardians.len()
        invariant
            j <= guardians@.len(),
            guardians@.len() == before.len(),
            forall|k: int| j <= k < before.len() ==> #[trigger] guardians@[k] == before[k],
            forall|k: int|
                j <= k < before.len() ==> coord_fits(
                    (#[trigger] before[k]).position.zx_pixel_pos.0,
                    4,
                ),
            forall|k: int| 0 <= k < j ==> #[trigger] guardians@[k] == patrolled(before[k]),
        decreases guardians@.len() - j,
    {
        let mut g = guardians[j];
        g.tick();
        guardians.set(j, g);
        j = j + 1;
    }
}

/// Moves every item one animation frame on.
fn cycle_items(items: &mut Vec<Item>)
    requires
        forall|m: int| 0 <= m < old(items)@.len() ==> (#[trigger] old(items)@[m]).frame < 4,
    ensures
        final(items)@.len() == old(items)@.len(),
        forall|m: int|
            0 <= m < old(items)@.len() ==> #[trigger] final(items)@[m] == (Item {
                frame: ((old(items)@[m].frame + 1) % 4) as usize,
                ..old(items)@[m]
            }),
{
    let ghost before = items@;
    let mut k: usize = 0;
    while k < items.len()
        invariant
            k <= items@.len(),
            items@.len() == before.len(),
            forall|m: int| 0 <= m < before.len() ==> (#[trigger] before[m]).frame < 4,
            forall|m: int| k <= m < before.len() ==> #[trigger] items@[m] == before[m],
            forall|m: int|
                0 <= m < k ==> #[trigger] items@[m] == (Item {
                    frame: ((before[m].frame + 1) % 4) as usize,
                    ..before[m]
                }),
        decreases items@.len() - k,
    {
        let mut item = items[k];
        item.cycle();
        items.set(k, item);
        k = k + 1;
    }
}

} // verus!
