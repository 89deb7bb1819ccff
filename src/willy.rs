use vstd::prelude::*;

use crate::actors::{
    direction_of, frame_facing, stepped_frame, Direction, HorizontalMotion,
};
use crate::cavern::CavernState;
use crate::gamedata::cavern::CavernTileType;
use crate::item::{collect_items, Item};
use crate::position::{cell_of, coord_fits, step_delta, Position, Relative};

verus! {

/// The jump counter value at which a fall that did not start with a jump
/// enters the jump table, past its rising half.
pub const DROP_COUNTER: u8 = 8;

/// How far the player falls in each tick once past the jump table.
pub const FREE_FALL_SPEED: i32 = 4;

/// The player's airborne state.
#[derive(Debug, Clone, Copy, PartialEq, Eq, Structural)]
pub enum AirborneStatus {
    NotJumpingOrFalling,
    Jumping,
    FallingSafeToLand,
    FallingUnsafeToLand,
    Collided,
}

impl AirborneStatus {
    pub open spec fn is_airborne_spec(&self) -> bool {
        !(*self == AirborneStatus::NotJumpingOrFalling || *self == AirborneStatus::Collided)
    }

    pub open spec fn is_falling_spec(&self) -> bool {
        *self == AirborneStatus::FallingSafeToLand || *self == AirborneStatus::FallingUnsafeToLand
    }

    /// Jumping or falling.
    #[verifier::when_used_as_spec(is_airborne_spec)]
    pub fn is_airborne(&self) -> (r: bool)
        ensures
            r == self.is_airborne_spec(),
    {
        !matches!(self, AirborneStatus::NotJumpingOrFalling | AirborneStatus::Collided)
    }

    /// Falling, safely or not.
    #[verifier::when_used_as_spec(is_falling_spec)]
    pub fn is_falling(&self) -> (r: bool)
        ensures
            r == self.is_falling_spec(),
    {
        matches!(self, AirborneStatus::FallingSafeToLand | AirborneStatus::FallingUnsafeToLand)
    }
}

/// The player's state.
#[derive(Debug, Clone, Copy)]
pub struct Willy {
    pub airborne_status: AirborneStatus,
    pub jump_counter: u8,
    pub can_move_left: bool,
    pub can_move_right: bool,
}

/// The keys held in a tick.
#[derive(Debug, Clone, Copy)]
pub struct KeyboardState {
    pub left_pressed: bool,
    pub right_pressed: bool,
    pub jump_pressed: bool,
}

/// Entry `i` of the jump table, the height gained in a tick of a jump:
/// 4, 4, 3, 3, 2, 2, 1, 1, then -1, -1, -2, -2, -3, -3, -4, -4.
pub open spec fn jump_delta_spec(i: int) -> int {
    if i < 8 {
        4 - i / 2
    } else {
        3 - i / 2
    }
}

/// Entry `i` of the jump table.
pub fn jump_delta(i: u8) -> (r: i32)
    requires
        i < 16,
    ensures
        r == jump_delta_spec(i as int),
{
    if i < 8 {
        4 - (i / 2) as i32
    } else {
        3 - (i / 2) as i32
    }
}

/// The sixteen entries of the jump table add up to nothing: a full jump
/// lands at the height it started from.
pub proof fn lemma_jump_arc_returns()
    ensures
        jump_delta_spec(0) + jump_delta_spec(1) + jump_delta_spec(2) + jump_delta_spec(3)
            + jump_delta_spec(4) + jump_delta_spec(5) + jump_delta_spec(6) + jump_delta_spec(7)
            + jump_delta_spec(8) + jump_delta_spec(9) + jump_delta_spec(10) + jump_delta_spec(11)
            + jump_delta_spec(12) + jump_delta_spec(13) + jump_delta_spec(14) + jump_delta_spec(15)
            == 0,
{
}

/// How far down the player moves in an airborne tick with jump counter
/// `counter`.
pub open spec fn fall_distance(counter: u8) -> int {
    if counter <= 15 {
        -jump_delta_spec(counter as int)
    } else {
        FREE_FALL_SPEED as int
    }
}

/// The airborne state after an airborne tick with jump counter `counter`.
pub open spec fn status_after_counter(status: AirborneStatus, counter: u8) -> AirborneStatus {
    if counter > 20 {
        AirborneStatus::FallingUnsafeToLand
    } else if counter > 7 {
        AirborneStatus::FallingSafeToLand
    } else {
        status
    }
}

/// The jump counter after an airborne tick; it stops at its largest value.
pub open spec fn next_counter(counter: u8) -> u8 {
    if counter < 255 {
        (counter + 1) as u8
    } else {
        counter
    }
}

/// Whether a jump press starts a jump: only from the ground.
pub open spec fn starts_jump(keys: KeyboardState, w: Willy) -> bool {
    keys.jump_pressed && !w.airborne_status.is_airborne()
}

/// The airborne state once the jump key has been read.
pub open spec fn status_after_keys(keys: KeyboardState, w: Willy) -> AirborneStatus {
    if starts_jump(keys, w) {
        AirborneStatus::Jumping
    } else {
        w.airborne_status
    }
}

/// The jump counter once the jump key has been read.
pub open spec fn counter_after_keys(keys: KeyboardState, w: Willy) -> u8 {
    if starts_jump(keys, w) {
        0
    } else {
        w.jump_counter
    }
}

/// On the ground the player walks while left or right is held; in the air
/// the walk goes on as it was.
pub open spec fn walking_after_keys(keys: KeyboardState, on_ground: bool, walking: bool) -> bool {
    if on_ground {
        keys.left_pressed || keys.right_pressed
    } else {
        walking
    }
}

/// On the ground the player faces the one direction key held; with both or
/// neither the facing is kept.
pub open spec fn frame_after_keys(keys: KeyboardState, on_ground: bool, frame: usize) -> usize {
    if on_ground && keys.left_pressed && !keys.right_pressed {
        frame_facing(frame, Direction::Left)
    } else if on_ground && keys.right_pressed && !keys.left_pressed {
        frame_facing(frame, Direction::Right)
    } else {
        frame
    }
}

impl Willy {
    /// A player on the ground, free to move both ways.
    pub fn new() -> (r: Willy)
        ensures
            r.airborne_status == AirborneStatus::NotJumpingOrFalling,
            r.jump_counter == 0,
            r.can_move_left,
            r.can_move_right,
    {
        Willy {
            airborne_status: AirborneStatus::NotJumpingOrFalling,
            jump_counter: 0,
            can_move_left: true,
            can_move_right: true,
        }
    }

    pub open spec fn can_move_spec(&self, direction: Direction) -> bool {
        match direction {
            Direction::Left => self.can_move_left,
            Direction::Right => self.can_move_right,
        }
    }

    /// Whether no wall blocks a move in `direction`.
    #[verifier::when_used_as_spec(can_move_spec)]
    pub fn can_move(&self, direction: Direction) -> (r: bool)
        ensures
            r == self.can_move_spec(direction),
    {
        match direction {
            Direction::Left => self.can_move_left,
            Direction::Right => self.can_move_right,
        }
    }
}

/// The keys of a tick in which only jump is held, or nothing.
pub open spec fn jump_keys(jump: bool) -> KeyboardState {
    KeyboardState { left_pressed: false, right_pressed: false, jump_pressed: jump }
}

/// The player after a jump pressed on one tick and `n` further ticks with
/// no key held, counting only its own movement (no landing).
pub open spec fn jump_run(w: Willy, position: Position, motion: HorizontalMotion, n: nat) -> (
    Willy,
    Position,
    HorizontalMotion,
)
    decreases n,
{
    if n == 0 {
        moved(jump_keys(true), w, position, motion)
    } else {
        let (w1, p1, m1) = jump_run(w, position, motion, (n - 1) as nat);
        moved(jump_keys(false), w1, p1, m1)
    }
}

/// How far down the player has moved over airborne ticks with jump
/// counters 0 to `n - 1`.
pub open spec fn fall_total(n: nat) -> int
    decreases n,
{
    if n == 0 {
        0
    } else {
        fall_total((n - 1) as nat) + fall_distance((n - 1) as u8)
    }
}

/// The airborne state `k` ticks after the tick a jump starts on.
pub open spec fn status_after_jump(k: nat) -> AirborneStatus {
    if k > 20 {
        AirborneStatus::FallingUnsafeToLand
    } else if k > 7 {
        AirborneStatus::FallingSafeToLand
    } else {
        AirborneStatus::Jumping
    }
}

/// The first tick of a jump rises four pixels; over the sixteen entries of
/// the jump table the player comes back to the height it jumped from; one
/// tick later it is four pixels lower.
pub proof fn lemma_jump_arc_heights()
    ensures
        fall_total(1) == -4,
        fall_total(16) == 0,
        fall_total(17) == 4,
{
    reveal_with_fuel(fall_total, 18);
}

/// No airborne tick moves the player more than four pixels up or down.
pub proof fn lemma_fall_total_bounded(n: nat)
    requires
        n <= 256,
    ensures
        -4 * n <= fall_total(n) <= 4 * n,
    decreases n,
{
    if n > 0 {
        lemma_fall_total_bounded((n - 1) as nat);
    }
}

/// A jump from the ground: on the tick it starts the player becomes
/// jumping with counter 1 after rising four pixels; `n` ticks later its
/// counter is `n + 1`, it is falling safely from the eighth such tick and
/// unsafely from the twenty-first, its height has changed by the jump
/// table's entries so far, and it still faces the same way.
pub proof fn lemma_jump_run(w: Willy, position: Position, motion: HorizontalMotion, n: nat)
    requires
        !w.airborne_status.is_airborne(),
        n < 250,
        i32::MIN + 4 * (n + 1) <= position.y() <= i32::MAX - 4 * (n + 1),
        i32::MIN + 2 * (n + 1) <= position.x() <= i32::MAX - 2 * (n + 1),
    ensures
        ({
            let (wn, pn, mn) = jump_run(w, position, motion, n);
            &&& wn.airborne_status == status_after_jump(n)
            &&& wn.jump_counter == n + 1
            &&& pn.y() == position.y() + fall_total(n + 1)
            &&& position.x() - 2 * (n + 1) <= pn.x() <= position.x() + 2 * (n + 1)
            &&& direction_of(mn.current_frame) == direction_of(motion.current_frame)
        }),
    decreases n,
{
    lemma_fall_total_bounded(n + 1);
    lemma_step_keeps_direction(motion.current_frame);
    if n == 0 {
        assert(starts_jump(jump_keys(true), w));
        assert(fall_total(0) == 0);
        assert(fall_total(1) == fall_distance(0));
    } else {
        lemma_jump_run(w, position, motion, (n - 1) as nat);
        lemma_fall_total_bounded(n);
        let (wp, pp, mp) = jump_run(w, position, motion, (n - 1) as nat);
        lemma_step_keeps_direction(mp.current_frame);
        assert(wp.airborne_status.is_airborne());
        assert(!starts_jump(jump_keys(false), wp));
        assert(jump_run(w, position, motion, n) == moved(jump_keys(false), wp, pp, mp));
        assert(fall_total(n + 1) == fall_total(n) + fall_distance(n as u8));
    }
}

/// A step keeps the facing of an animation frame.
proof fn lemma_step_keeps_direction(frame: usize)
    ensures
        direction_of(stepped_frame(frame)) == direction_of(frame),
{
}

/// Whether a wall in the next cell stops a walk at pixel column `x` facing
/// `direction`.
pub open spec fn blocked(w: Willy, x: int, direction: Direction) -> bool {
    cell_of(x + step_delta(direction)) != cell_of(x) && !w.can_move_spec(direction)
}

/// The player, its position and its motion after one tick of its own
/// movement: the keys, the walls, the jump and fall arc, and the step.
pub open spec fn moved(keys: KeyboardState, w: Willy, position: Position, motion: HorizontalMotion) -> (
    Willy,
    Position,
    HorizontalMotion,
) {
    let status = status_after_keys(keys, w);
    let counter = counter_after_keys(keys, w);
    let on_ground = !status.is_airborne();
    let frame = frame_after_keys(keys, on_ground, motion.current_frame);
    let direction = direction_of(frame);
    let walking = walking_after_keys(keys, on_ground, motion.walking) && !blocked(
        w,
        position.x(),
        direction,
    ) && (on_ground || counter <= 15);
    let dy = if on_ground {
        0
    } else {
        fall_distance(counter)
    };
    let dx = if walking {
        step_delta(direction)
    } else {
        0
    };
    (
        Willy {
            airborne_status: if on_ground {
                status
            } else {
                status_after_counter(status, counter)
            },
            jump_counter: if on_ground {
                counter
            } else {
                next_counter(counter)
            },
            ..w
        },
        Position {
            zx_pixel_pos: ((position.x() + dx) as i32, (position.y() + dy) as i32),
            ..position
        },
        HorizontalMotion {
            walking,
            current_frame: if walking {
                stepped_frame(frame)
            } else {
                frame
            },
        },
    )
}

/// One tick of the player's own movement: the keys, the walls, the jump
/// and fall arc, and the step.
pub fn move_willy(
    keys: &KeyboardState,
    willy: &mut Willy,
    position: &mut Position,
    motion: &mut HorizontalMotion,
)
    requires
        coord_fits(old(position).zx_pixel_pos.0, 2),
        coord_fits(old(position).zx_pixel_pos.1, 4),
    ensures
        (*final(willy), *final(position), *final(motion)) == moved(
            *keys,
            *old(willy),
            *old(position),
            *old(motion),
        ),
{
    if keys.jump_pressed && !willy.airborne_status.is_airborne() {
        willy.airborne_status = AirborneStatus::Jumping;
        willy.jump_counter = 0;
    }
    if !willy.airborne_status.is_airborne() {
        motion.walking = keys.left_pressed || keys.right_pressed;
        if keys.left_pressed && !keys.right_pressed {
            motion.set_direction(Direction::Left);
        } else if keys.right_pressed && !keys.left_pressed {
            motion.set_direction(Direction::Right);
        }
    }
    // A step into a walled cell is not taken.
    if motion.walking && position.will_change_cell(motion.direction()) && !willy.can_move(
        motion.direction(),
    ) {
        motion.walking = false;
    }
    if willy.airborne_status.is_airborne() {
        let counter = willy.jump_counter;
        if counter <= 15 {
            position.jump(jump_delta(counter));
        }
        if counter > 7 {
            willy.airborne_status = AirborneStatus::FallingSafeToLand;
        }
        if counter > 15 {
            // Past the jump table the fall is steady and the walk stops.
            position.jump(-FREE_FALL_SPEED);
            motion.walking = false;
        }
        if counter > 20 {
            willy.airborne_status = AirborneStatus::FallingUnsafeToLand;
        }
        if counter < 255 {
            willy.jump_counter = counter + 1;
        }
    }
    if motion.walking {
        motion.step(position);
    }
}

/// Whether any of the cells of kind `kind` around `position` holds a wall.
pub open spec fn wall_at(state: &CavernState, position: Position, kind: Relative) -> bool {
    state.any_relative_is(position, kind, CavernTileType::Wall)
}

/// The player once the walls beside it have been looked at.
pub open spec fn wall_checked(state: &CavernState, position: Position, w: Willy) -> Willy {
    Willy {
        can_move_left: !wall_at(state, position, Relative::Left),
        can_move_right: !wall_at(state, position, Relative::Right),
        ..w
    }
}

/// Works out which ways the player may move: not towards a wall in either
/// of the two cells on that side.
pub fn check_wall_collision(cavern_state: &CavernState, position: &Position, willy: &mut Willy)
    requires
        cavern_state.wf(),
    ensures
        *final(willy) == wall_checked(cavern_state, *position, *old(willy)),
{
    willy.can_move_left = !cavern_state.is_type(position, Relative::Left, CavernTileType::Wall);
    willy.can_move_right = !cavern_state.is_type(position, Relative::Right, CavernTileType::Wall);
}

/// Whether one of the two cells under the player can carry it.
pub open spec fn can_stand_at(state: &CavernState, position: Position) -> bool {
    exists|i: int|
        0 <= i < 2 && state.tile_at(
            #[trigger] position.relative_cells(Relative::Below)[i].0,
            position.relative_cells(Relative::Below)[i].1,
        ).can_stand_spec()
}

/// Whether one of the two cells under the player can carry it.
pub fn can_stand(position: &Position, cavern_state: &CavernState) -> (r: bool)
    requires
        cavern_state.wf(),
    ensures
        r == can_stand_at(cavern_state, *position),
{
    let cells = position.relative(Relative::Below);
    let ghost below = position.relative_cells(Relative::Below);
    let first = cavern_state.get_tile_type(cells[0]).can_stand();
    let second = cavern_state.get_tile_type(cells[1]).can_stand();
    assert(first == cavern_state.tile_at(below[0].0, below[0].1).can_stand_spec());
    assert(second == cavern_state.tile_at(below[1].0, below[1].1).can_stand_spec());
    first || second
}

/// The player and its motion after the check for ground under it: one on
/// the ground with nothing to stand on starts falling, in the falling half
/// of the jump table, and stops walking.
pub open spec fn dropped(state: &CavernState, w: Willy, motion: HorizontalMotion, position: Position) -> (
    Willy,
    HorizontalMotion,
) {
    if !w.airborne_status.is_airborne() && !can_stand_at(state, position) {
        (
            Willy {
                airborne_status: AirborneStatus::FallingSafeToLand,
                jump_counter: DROP_COUNTER,
                ..w
            },
            HorizontalMotion { walking: false, ..motion },
        )
    } else {
        (w, motion)
    }
}

/// The player and its motion after the check for a landing: a falling
/// player whose top is on a cell boundary and who has something to stand
/// on lands and stops walking.
pub open spec fn landed(state: &CavernState, w: Willy, motion: HorizontalMotion, position: Position) -> (
    Willy,
    HorizontalMotion,
) {
    if w.airborne_status.is_falling() && position.y() % 8 == 0 && can_stand_at(state, position) {
        (
            Willy { airborne_status: AirborneStatus::NotJumpingOrFalling, ..w },
            HorizontalMotion { walking: false, ..motion },
        )
    } else {
        (w, motion)
    }
}

/// A falling player lands only with its top on a cell boundary, and then
/// exactly when one of the two cells under it can carry it; a player that
/// is not falling never lands.
pub proof fn lemma_landing_rule(
    state: &CavernState,
    w: Willy,
    motion: HorizontalMotion,
    position: Position,
)
    ensures
        ({
            let (w1, m1) = landed(state, w, motion, position);
            &&& w.airborne_status.is_falling() ==> ((w1.airborne_status
                == AirborneStatus::NotJumpingOrFalling) <==> (position.y() % 8 == 0
                && can_stand_at(state, position)))
            &&& !w.airborne_status.is_falling() ==> w1 == w && m1 == motion
        }),
{
}

/// Starts a fall when the player stands on nothing: the jump counter enters
/// the falling half of the jump table and the walk stops.
pub fn check_drop(
    cavern_state: &CavernState,
    willy: &mut Willy,
    motion: &mut HorizontalMotion,
    position: &Position,
)
    requires
        cavern_state.wf(),
    ensures
        ({
            let drops = !old(willy).airborne_status.is_airborne() && !can_stand_at(
                cavern_state,
                *position,
            );
            &&& final(willy).airborne_status == if drops {
                AirborneStatus::FallingSafeToLand
            } else {
                old(willy).airborne_status
            }
            &&& final(willy).jump_counter == if drops {
                DROP_COUNTER
            } else {
                old(willy).jump_counter
            }
            &&& final(motion).walking == (old(motion).walking && !drops)
        }),
        (*final(willy), *final(motion)) == dropped(cavern_state, *old(willy), *old(motion), *position),
{
    if !willy.airborne_status.is_airborne() && !can_stand(position, cavern_state) {
        willy.airborne_status = AirborneStatus::FallingSafeToLand;
        willy.jump_counter = DROP_COUNTER;
        motion.walking = false;
    }
}

/// Ends a fall: a falling player whose top is on a cell boundary and who
/// has something to stand on lands and stops walking.
pub fn check_landing(
    cavern_state: &CavernState,
    willy: &mut Willy,
    motion: &mut HorizontalMotion,
    position: &Position,
)
    requires
        cavern_state.wf(),
    ensures
        ({
            let lands = old(willy).airborne_status.is_falling() && position.y() % 8 == 0
                && can_stand_at(cavern_state, *position);
            &&& final(willy).airborne_status == if lands {
                AirborneStatus::NotJumpingOrFalling
            } else {
                old(willy).airborne_status
            }
            &&& final(motion).walking == (old(motion).walking && !lands)
        }),
        (*final(willy), *final(motion)) == landed(cavern_state, *old(willy), *old(motion), *position),
{
    if willy.airborne_status.is_falling() && position.is_vertically_cell_aligned() && can_stand(
        position,
        cavern_state,
    ) {
        willy.airborne_status = AirborneStatus::NotJumpingOrFalling;
        motion.walking = false;
    }
}

/// Whether one of the four cells the player covers is a hazard.
pub open spec fn touches_nasty(state: &CavernState, position: Position) -> bool {
    exists|i: int|
        0 <= i < 4 && state.tile_at(
            #[trigger] position.relative_cells(Relative::Inside)[i].0,
            position.relative_cells(Relative::Inside)[i].1,
        ).is_nasty_spec()
}

/// Checks what the player touches: returns whether a hazard is among the
/// four cells it covers, and collects every item lying in one of them.
pub fn check_collisions(cavern_state: &CavernState, position: &Position, items: &mut Vec<Item>) -> (r:
    bool)
    requires
        cavern_state.wf(),
    ensures
        r == touches_nasty(cavern_state, *position),
        final(items)@ == collect_items(old(items)@, position.relative_cells(Relative::Inside)),
{
    let cells = position.relative(Relative::Inside);
    let ghost inside = position.relative_cells(Relative::Inside);
    let ghost start = items@;
    let mut hazard = false;
    let mut k: usize = 0;
    while k < 4
        invariant
            cavern_state.wf(),
            k <= 4,
            cells@.len() == 4,
            inside == position.relative_cells(Relative::Inside),
            forall|j: int|
                0 <= j < 4 ==> (#[trigger] cells@[j]).0 as int == inside[j].0 && cells@[j].1 as int
                    == inside[j].1,
            hazard == exists|i: int|
                0 <= i < k && cavern_state.tile_at(#[trigger] inside[i].0, inside[i].1).is_nasty_spec(),
            items@ == collect_items(start, inside.subrange(0, k as int)),
        decreases 4 - k,
    {
        let cell = cells[k];
        if cavern_state.get_tile_type(cell).is_nasty() {
            hazard = true;
        }
        collect_at(items, cell);
        proof {
            let before = inside.subrange(0, k as int);
            let after = inside.subrange(0, k + 1);
            assert(after =~= before.push(inside[k as int]));
            assert forall|j: int| 0 <= j < start.len() implies #[trigger] items@[j] == collect_items(
                start,
                after,
            )[j] by {
                let c = crate::item::item_cell(start[j]);
                assert(after.contains(c) == (before.contains(c) || c == inside[k as int])) by {
                    if c == inside[k as int] {
                        assert(after[k as int] == c);
                    }
                    if before.contains(c) {
                        let m = choose|m: int| 0 <= m < before.len() && before[m] == c;
                        assert(after[m] == c);
                    }
                    if after.contains(c) {
                        let m = choose|m: int| 0 <= m < after.len() && after[m] == c;
                        if m < k {
                            assert(before[m] == c);
                        }
                    }
                }
            }
            assert(items@ =~= collect_items(start, after));
        }
        k = k + 1;
    }
    assert(inside.subrange(0, 4) =~= inside);
    hazard
}

/// Collects every uncollected item that lies in `cell`.
fn collect_at(items: &mut Vec<Item>, cell: (i32, i32))
    ensures
        final(items)@.len() == old(items)@.len(),
        forall|j: int|
            0 <= j < old(items)@.len() ==> #[trigger] final(items)@[j] == (Item {
                collected: old(items)@[j].collected || crate::item::item_cell(old(items)@[j]) == (
                cell.0 as int,
                cell.1 as int,
                ),
                ..old(items)@[j]
            }),
{
    let ghost start = items@;
    let mut j: usize = 0;
    while j < items.len()
        invariant
            j <= items@.len(),
            items@.len() == start.len(),
            forall|m: int|
                j <= m < start.len() ==> #[trigger] items@[m] == start[m],
            forall|m: int|
                0 <= m < j ==> #[trigger] items@[m] == (Item {
                    collected: start[m].collected || crate::item::item_cell(start[m]) == (
                    cell.0 as int,
                    cell.1 as int,
                    ),
                    ..start[m]
                }),
        decreases items@.len() - j,
    {
        let item = items[j];
        let (ix, iy) = item.data.position;
        if ix as i32 == cell.0 && iy as i32 == cell.1 && !item.collected {
            items.set(j, Item { collected: true, ..item });
        }
        j = j + 1;
    }
}

} // verus!
