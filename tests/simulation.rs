use miner_willy::actors::{clamp, Direction, HorizontalMotion};
use miner_willy::cavern::{CavernState, CurrentCavern};
use miner_willy::color::Attributes;
use miner_willy::gamedata::cavern::{self, Cavern, CavernTileType, GuardianSpeed};
use miner_willy::guardian::Guardian;
use miner_willy::item::{item_cycle_colors, Item};
use miner_willy::portal::Portal;
use miner_willy::position::{cell_coord, Layer, Position, Relative};
use miner_willy::willy::{
    can_stand, check_collisions, check_drop, check_landing, check_wall_collision, jump_delta,
    move_willy, AirborneStatus, KeyboardState, Willy,
};
use miner_willy::world::World;

/// A cavern with a floor along the bottom row, a hazard at (10, 13), a
/// crumbling floor at (2, 15) when asked for, and a wall at (6, 13).
fn cavern(crumbling: bool) -> Cavern {
    let mut r = vec![0u8; 1024];
    for x in 0..32 {
        r[15 * 32 + x] = 0x42;
    }
    if crumbling {
        r[15 * 32 + 2] = 0x02;
        r[15 * 32 + 3] = 0x02;
    }
    r[13 * 32 + 10] = 0x44;
    r[13 * 32 + 6] = 0x16;
    for k in 0..32 {
        r[512 + k] = b' ';
    }
    let tile_attrs = [0x00u8, 0x42, 0x02, 0x16, 0x04, 0x44, 0x05, 0x03];
    for (i, a) in tile_attrs.iter().enumerate() {
        r[544 + 9 * i] = *a;
    }
    r[629] = 0xFF;
    r[702] = 0xFF;
    Cavern::try_from_bytes(&r).unwrap()
}

fn no_keys() -> KeyboardState {
    KeyboardState { left_pressed: false, right_pressed: false, jump_pressed: false }
}

#[test]
fn jump_rises_then_falls_and_lands() {
    let c = cavern(false);
    let mut world = World::load(&c);
    assert_eq!(world.willy_position.pixel(), (16, 104));
    let jump = KeyboardState { jump_pressed: true, ..no_keys() };
    world.tick(&jump);
    assert_eq!(world.willy.airborne_status, AirborneStatus::Jumping);
    assert_eq!(world.willy.jump_counter, 1);
    assert_eq!(world.willy_position.pixel().1, 100);
    for _ in 0..7 {
        world.tick(&no_keys());
    }
    assert_eq!(world.willy.airborne_status, AirborneStatus::Jumping);
    assert_eq!(world.willy_position.pixel().1, 84);
    world.tick(&no_keys());
    assert_eq!(world.willy.airborne_status, AirborneStatus::FallingSafeToLand);
    for _ in 0..7 {
        world.tick(&no_keys());
    }
    // Sixteen ticks: the arc is done and the player is back on the floor.
    assert_eq!(world.willy_position.pixel().1, 104);
    assert_eq!(world.willy.airborne_status, AirborneStatus::NotJumpingOrFalling);
}

#[test]
fn jump_table_values() {
    let table: Vec<i32> = (0..16).map(|i| jump_delta(i)).collect();
    assert_eq!(table, vec![4, 4, 3, 3, 2, 2, 1, 1, -1, -1, -2, -2, -3, -3, -4, -4]);
    assert_eq!(table.iter().sum::<i32>(), 0);
}

#[test]
fn walking_off_a_ledge_falls_and_speeds_up() {
    let c = cavern(false);
    let state = CavernState::from_cavern(&c);
    let mut willy = Willy::new();
    let mut motion = HorizontalMotion::frozen();
    let mut pos = Position::at_char_pos(Layer::Characters, (2, 10));
    check_drop(&state, &mut willy, &mut motion, &pos);
    assert_eq!(willy.airborne_status, AirborneStatus::FallingSafeToLand);
    assert_eq!(willy.jump_counter, 8);
    let mut ys = vec![];
    for _ in 0..14 {
        move_willy(&no_keys(), &mut willy, &mut pos, &mut motion);
        ys.push(pos.pixel().1);
    }
    assert_eq!(ys, vec![81, 82, 84, 86, 89, 92, 96, 100, 104, 108, 112, 116, 120, 124]);
    assert_eq!(willy.airborne_status, AirborneStatus::FallingUnsafeToLand);
}

#[test]
fn landing_needs_cell_alignment_and_ground() {
    let c = cavern(false);
    let state = CavernState::from_cavern(&c);
    let falling = Willy { airborne_status: AirborneStatus::FallingSafeToLand, jump_counter: 12, ..Willy::new() };

    let mut w = falling;
    let mut m = HorizontalMotion { walking: true, current_frame: 1 };
    let mut pos = Position::at_char_pos(Layer::Characters, (2, 13));
    pos.jump(1);
    check_landing(&state, &mut w, &mut m, &pos);
    assert_eq!(w.airborne_status, AirborneStatus::FallingSafeToLand);
    assert!(m.walking);

    let pos = Position::at_char_pos(Layer::Characters, (2, 13));
    assert!(can_stand(&pos, &state));
    check_landing(&state, &mut w, &mut m, &pos);
    assert_eq!(w.airborne_status, AirborneStatus::NotJumpingOrFalling);
    assert!(!m.walking);

    let mut w = falling;
    let high = Position::at_char_pos(Layer::Characters, (2, 10));
    assert!(!can_stand(&high, &state));
    check_landing(&state, &mut w, &mut m, &high);
    assert_eq!(w.airborne_status, AirborneStatus::FallingSafeToLand);

    let mut jumping = Willy { airborne_status: AirborneStatus::Jumping, ..Willy::new() };
    check_landing(&state, &mut jumping, &mut m, &pos);
    assert_eq!(jumping.airborne_status, AirborneStatus::Jumping);
}

#[test]
fn crumbling_floor_wears_down_then_vanishes() {
    let c = cavern(true);
    let mut state = CavernState::from_cavern(&c);
    let pos = Position::at_char_pos(Layer::Characters, (2, 13));
    assert_eq!(state.get_tile_type((2, 15)), CavernTileType::CrumblingFloor);
    assert_eq!(state.get_crumble_level((2, 15)), 7);
    assert_eq!(state.crumble_frame((2, 15)), None);
    assert_eq!(state.crumble_frame((4, 15)), None);
    for level in (0..7).rev() {
        state.update_crumble(&pos, false);
        assert_eq!(state.get_crumble_level((2, 15)), level);
        assert_eq!(state.get_crumble_level((3, 15)), level);
        assert_eq!(state.get_tile_type((2, 15)), CavernTileType::CrumblingFloor);
        assert_eq!(state.crumble_frame((2, 15)), Some(7 - level as usize));
    }
    state.update_crumble(&pos, false);
    assert_eq!(state.get_tile_type((2, 15)), CavernTileType::Background);
    assert_eq!(state.get_tile_type((3, 15)), CavernTileType::Background);
    assert_eq!(state.get_crumble_level((2, 15)), 0);
    state.update_crumble(&pos, false);
    assert_eq!(state.get_crumble_level((2, 15)), 0);
    assert_eq!(state.get_tile_type((4, 15)), CavernTileType::Floor);
}

#[test]
fn airborne_player_does_not_crumble() {
    let c = cavern(true);
    let mut state = CavernState::from_cavern(&c);
    let pos = Position::at_char_pos(Layer::Characters, (2, 13));
    state.update_crumble(&pos, true);
    assert_eq!(state.get_crumble_level((2, 15)), 7);
}

#[test]
fn player_falls_once_floor_has_crumbled() {
    let c = cavern(true);
    let mut world = World::load(&c);
    for _ in 0..8 {
        world.tick(&no_keys());
        assert_eq!(world.willy.airborne_status, AirborneStatus::NotJumpingOrFalling);
    }
    world.tick(&no_keys());
    assert_eq!(world.willy.airborne_status, AirborneStatus::FallingSafeToLand);
}

#[test]
fn out_of_range_cells_are_background() {
    let state = CavernState::from_cavern(&cavern(false));
    assert_eq!(state.get_tile_type((-1, 3)), CavernTileType::Background);
    assert_eq!(state.get_tile_type((32, 15)), CavernTileType::Background);
    assert_eq!(state.get_tile_type((0, 16)), CavernTileType::Background);
    assert_eq!(state.get_tile_type((0, 15)), CavernTileType::Floor);
    let empty = CavernState::new();
    assert_eq!(empty.get_tile_type((0, 15)), CavernTileType::Background);
    assert_eq!(empty.get_crumble_level((0, 15)), 7);
}

fn guardian_data(frame: u8) -> cavern::Guardian {
    cavern::Guardian {
        attributes: Attributes::from_byte(0x06),
        start_pos: (5, 5),
        first_animation_frame: frame,
        left_bound: 2,
        right_bound: 5,
        speed: GuardianSpeed::Normal,
    }
}

#[test]
fn guardian_turns_at_right_bound() {
    let mut g = Guardian::spawn(&guardian_data(0));
    assert_eq!(g.position.pixel(), (40, 40));
    for _ in 0..3 {
        g.tick();
        assert_eq!(g.motion.direction(), Direction::Right);
        assert!(g.position.char_pos().0 <= 5);
    }
    assert_eq!(g.position.pixel().0, 46);
    g.tick();
    assert_eq!(g.motion.direction(), Direction::Left);
    assert_eq!(g.position.pixel().0, 46);
    assert!(g.position.char_pos().0 <= 5);
    g.tick();
    assert_eq!(g.position.pixel().0, 44);
}

#[test]
fn guardian_turns_at_left_bound() {
    let mut g = Guardian::spawn(&guardian_data(4));
    assert_eq!(g.position.pixel(), (46, 40));
    let mut turned_at = None;
    for t in 0..30 {
        g.tick();
        assert!(g.position.char_pos().0 >= 2);
        if turned_at.is_none() && g.motion.direction() == Direction::Right {
            turned_at = Some(t);
        }
    }
    assert_eq!(turned_at, Some(15));
}

#[test]
fn guardian_turns_at_left_edge_of_screen() {
    let data = cavern::Guardian { start_pos: (0, 5), left_bound: 0, ..guardian_data(4) };
    let mut g = Guardian::spawn(&data);
    let mut xs = vec![g.position.pixel().0];
    for _ in 0..6 {
        g.tick();
        xs.push(g.position.pixel().0);
    }
    assert_eq!(xs, vec![6, 4, 2, 0, 0, 2, 4]);
    assert_eq!(g.motion.direction(), Direction::Right);
}

#[test]
fn collecting_an_item_happens_once() {
    let c = cavern(false);
    let state = CavernState::from_cavern(&c);
    let pos = Position::at_char_pos(Layer::Characters, (2, 13));
    let attributes = Attributes::from_byte(0x03);
    let mut items = vec![
        Item::new(cavern::Item { attributes, position: (3, 14) }),
        Item::new(cavern::Item { attributes, position: (20, 3) }),
    ];
    assert!(!check_collisions(&state, &pos, &mut items));
    assert!(items[0].collected);
    assert!(!items[1].collected);
    let first = items.clone();
    assert!(!check_collisions(&state, &pos, &mut items));
    assert_eq!(items[0].collected, first[0].collected);
    assert_eq!(items[1].collected, first[1].collected);
}

#[test]
fn touching_a_hazard_is_reported() {
    let c = cavern(false);
    let state = CavernState::from_cavern(&c);
    let pos = Position::at_char_pos(Layer::Characters, (9, 12));
    let mut items = vec![];
    assert!(check_collisions(&state, &pos, &mut items));
    assert!(state.is_type(&pos, Relative::Inside, CavernTileType::Nasty1));
    assert!(!state.is_type(&pos, Relative::Inside, CavernTileType::Wall));
}

#[test]
fn wall_blocks_walking_into_it() {
    let c = cavern(false);
    let state = CavernState::from_cavern(&c);
    let mut willy = Willy::new();
    let mut pos = Position::at_char_pos(Layer::Characters, (3, 13));
    let mut motion = HorizontalMotion::frozen();
    let right = KeyboardState { right_pressed: true, ..no_keys() };
    let mut xs = vec![];
    for _ in 0..8 {
        check_wall_collision(&state, &pos, &mut willy);
        move_willy(&right, &mut willy, &mut pos, &mut motion);
        xs.push(pos.pixel().0);
    }
    assert!(!willy.can_move_right);
    assert!(willy.can_move_left);
    assert_eq!(xs, vec![26, 28, 30, 32, 34, 36, 38, 38]);
}

#[test]
fn keys_set_walking_and_facing() {
    let mut willy = Willy::new();
    let mut pos = Position::at_char_pos(Layer::Characters, (10, 5));
    let mut motion = HorizontalMotion::frozen();
    let left = KeyboardState { left_pressed: true, ..no_keys() };
    move_willy(&left, &mut willy, &mut pos, &mut motion);
    assert!(motion.walking);
    assert_eq!(motion.direction(), Direction::Left);
    assert_eq!(pos.pixel().0, 78);
    let both = KeyboardState { left_pressed: true, right_pressed: true, jump_pressed: false };
    move_willy(&both, &mut willy, &mut pos, &mut motion);
    assert_eq!(motion.direction(), Direction::Left);
    assert_eq!(pos.pixel().0, 76);
    move_willy(&no_keys(), &mut willy, &mut pos, &mut motion);
    assert!(!motion.walking);
    assert_eq!(pos.pixel().0, 76);
}

#[test]
fn motion_frames_wrap_within_their_block() {
    let mut m = HorizontalMotion { walking: true, current_frame: 3 };
    let mut pos = Position::at_char_pos(Layer::Characters, (1, 1));
    m.step(&mut pos);
    assert_eq!(m.current_frame, 0);
    assert_eq!(pos.pixel().0, 10);
    m.change_direction();
    assert_eq!(m.current_frame, 4);
    m.step(&mut pos);
    assert_eq!(m.current_frame, 7);
    assert_eq!(pos.pixel().0, 8);
    m.set_direction(Direction::Right);
    assert_eq!(m.current_frame, 3);
    assert_eq!(clamp(8, 4, 7), 4);
    assert_eq!(clamp(3, 4, 7), 7);
    assert_eq!(clamp(5, 4, 7), 5);
}

#[test]
fn positions_map_to_cells() {
    let mut p = Position::at_char_pos(Layer::Items, (4, 6));
    assert_eq!(p.char_pos(), (4, 6));
    assert!(p.is_vertically_cell_aligned());
    assert!(!p.will_change_cell(Direction::Right));
    assert!(p.will_change_cell(Direction::Left));
    p.jump(-3);
    assert!(!p.is_vertically_cell_aligned());
    p.set_char_pos((0, 0));
    p.step(Direction::Left);
    assert_eq!(p.pixel(), (-2, 0));
    assert_eq!(p.char_pos(), (0, 0));
    p.jump(8);
    assert!(p.is_vertically_cell_aligned());
    p.set_char_x(31);
    p.set_char_y(2);
    assert_eq!(p.pixel(), (248, 16));
    assert_eq!(p.relative(Relative::Below), vec![(31, 4), (32, 4)]);
    assert_eq!(p.relative(Relative::Left), vec![(30, 2), (30, 3)]);
    assert_eq!(cell_coord(5000), 255);
    assert_eq!(cell_coord(-9), 0);
}

#[test]
fn item_colours_cycle_from_own_ink() {
    let initial = Attributes { ink: 5, paper: 1, bright: true, transparent_background: false };
    let colors = item_cycle_colors(&initial);
    let inks: Vec<u8> = colors.iter().map(|a| a.ink).collect();
    assert_eq!(inks, vec![5, 4, 3, 6]);
    assert!(colors.iter().all(|a| a.paper == 1 && a.bright));
    let other = Attributes { ink: 1, ..initial };
    let inks: Vec<u8> = item_cycle_colors(&other).iter().map(|a| a.ink).collect();
    assert_eq!(inks, vec![3, 6, 5, 4]);
}

#[test]
fn item_frames_cycle() {
    let mut item = Item::new(cavern::Item { attributes: Attributes::from_byte(3), position: (1, 1) });
    let frames: Vec<usize> = (0..5).map(|_| { item.cycle(); item.frame }).collect();
    assert_eq!(frames, vec![1, 2, 3, 0, 1]);
}

#[test]
fn unlocked_portal_flashes_every_four_ticks() {
    let c = cavern(false);
    let mut portal = Portal::new(&c.portal);
    portal.flash_if_unlocked();
    assert!(!portal.inverted);
    assert_eq!(portal.countdown, 4);
    portal.unlock();
    let states: Vec<bool> = (0..8).map(|_| { portal.flash_if_unlocked(); portal.inverted }).collect();
    assert_eq!(states, vec![false, false, false, true, true, true, true, false]);
}

#[test]
fn world_unlocks_portal_and_moves_guardians() {
    let mut bytes = vec![0u8; 1024];
    for k in 0..32 {
        bytes[512 + k] = b'A';
    }
    bytes[629] = 0xFF;
    bytes[702..709].copy_from_slice(&[0x06, 0x05, 0x00, 0x00, 0x00, 0x00, 0x07]);
    bytes[709] = 0xFF;
    let c = Cavern::try_from_bytes(&bytes).unwrap();
    let mut world = World::load(&c);
    assert!(world.in_range());
    assert_eq!(world.guardians.len(), 1);
    assert_eq!(world.guardians[0].position.pixel(), (40, 0));
    world.unlock_portal();
    assert!(world.portal.unlocked);
    world.tick(&no_keys());
    assert_eq!(world.guardians[0].position.pixel(), (42, 0));
    assert_eq!(world.willy.airborne_status, AirborneStatus::FallingSafeToLand);
}

#[test]
fn switching_caverns_stays_in_range() {
    let mut current = CurrentCavern { number: 0 };
    current.switch(false, true);
    assert_eq!(current.number, 0);
    current.switch(true, true);
    assert_eq!(current.number, 1);
    current.switch(false, true);
    assert_eq!(current.number, 0);
    let mut last = CurrentCavern { number: 19 };
    last.switch(true, false);
    assert_eq!(last.number, 19);
}
