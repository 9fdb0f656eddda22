use rustman_core::game_time::GameTime;
use rustman_core::input::{Event, Input, KEY_D, KEY_W};
use rustman_core::level::Level;
use rustman_core::level_object::LevelType;
use rustman_core::player::{MoveDirection, Player};
use rustman_core::units::{Vector2i, Vector2u};

fn open_map(width: usize, height: usize) -> Vec<Vec<LevelType>> {
    let mut map = Vec::new();
    for _ in 0..width {
        let mut column = Vec::new();
        for _ in 0..height {
            column.push(LevelType::SPACE);
        }
        map.push(column);
    }
    map
}

fn frame_time(delta: i32) -> GameTime {
    let mut game_time = GameTime::new(0);
    game_time.begin_frame(delta);
    game_time
}

#[test]
fn collision_clamps_right_movement_at_the_wall() {
    // Wall tile (2, 1) has its rect's left edge at world x = 64. The entity
    // (half size 8) moves Right so that its right edge would land at 72;
    // the resolved position puts its center at 64 - 8 = 56: no penetration.
    let mut map = open_map(4, 3);
    map[2][1] = LevelType::WALL;
    let level = Level::new_with_map(Vector2u::new(4, 3), map);
    let mut player = Player::new(40, 48, Vector2i::new(8, 8), 1);
    player.move_dir = MoveDirection::RIGHT;
    let resolved = player.check_collision(Vector2i::new(40, 48), Vector2i::new(24, 0), &level);
    assert_eq!(resolved, Vector2i::new(56, 48));
}

#[test]
fn collision_accepts_unobstructed_movement() {
    let map = open_map(4, 3);
    let level = Level::new_with_map(Vector2u::new(4, 3), map);
    let player = Player::new(40, 48, Vector2i::new(8, 8), 1);
    let resolved = player.check_collision(Vector2i::new(40, 48), Vector2i::new(24, 0), &level);
    assert_eq!(resolved, Vector2i::new(64, 48));
}

#[test]
fn collision_clamps_each_direction_against_its_axis() {
    let mut map = open_map(3, 3);
    map[1][0] = LevelType::WALL;  // above center tile, rect top edge at y = 0
    map[1][2] = LevelType::WALL;  // below center tile, rect top edge at y = 64
    let level = Level::new_with_map(Vector2u::new(3, 3), map);
    let center = Vector2i::new(48, 48);

    let mut up = Player::new(48, 48, Vector2i::new(8, 8), 1);
    up.move_dir = MoveDirection::UP;
    // Wall (1, 0) spans y in [0, 32): moving up clamps to 32 + 8 = 40.
    assert_eq!(up.check_collision(center, Vector2i::new(0, -10), &level), Vector2i::new(48, 40));

    let mut down = Player::new(48, 48, Vector2i::new(8, 8), 1);
    down.move_dir = MoveDirection::DOWN;
    // Wall (1, 2) starts at y = 64: moving down clamps to 64 - 8 = 56.
    assert_eq!(
        down.check_collision(center, Vector2i::new(0, 10), &level),
        Vector2i::new(48, 56)
    );
}

#[test]
fn input_tie_break_right_beats_up() {
    let mut input = Input::new();
    input.check_input(Event::KeyPressed { code: KEY_W });
    input.check_input(Event::KeyPressed { code: KEY_D });
    let mut player = Player::new(0, 0, Vector2i::new(8, 8), 1);
    player.process_input(&input);
    assert_eq!(player.move_dir, MoveDirection::RIGHT);
}

#[test]
fn input_without_direction_keys_keeps_the_direction() {
    let input = Input::new();
    let mut player = Player::new(0, 0, Vector2i::new(8, 8), 1);
    player.move_dir = MoveDirection::LEFT;
    player.process_input(&input);
    assert_eq!(player.move_dir, MoveDirection::LEFT);
    assert_eq!(player.initial_dir, MoveDirection::LEFT);
}

#[test]
fn snap_to_grid_rounds_half_up_per_axis() {
    let snapped = Player::round_movement(Vector2i::new(101, 50), 8);
    assert_eq!(snapped, Vector2i::new(104, 48));
}

#[test]
fn snap_to_grid_boundaries() {
    assert_eq!(Player::round_movement(Vector2i::new(100, 96), 8), Vector2i::new(104, 96));
    assert_eq!(Player::round_movement(Vector2i::new(99, 4), 8), Vector2i::new(96, 8));
}

#[test]
fn turn_from_right_to_up_snaps_the_position() {
    // A direction change from Right to Up at (101, 50) with granularity 8
    // snaps the post-turn position to (104, 48).
    let map = open_map(8, 8);
    let level = Level::new_with_map(Vector2u::new(8, 8), map);
    let mut player = Player::new(101, 50, Vector2i::new(8, 8), 1);
    player.move_dir = MoveDirection::RIGHT;
    player.initial_dir = MoveDirection::RIGHT;
    let mut input = Input::new();
    input.check_input(Event::KeyPressed { code: KEY_W });
    let game_time = frame_time(0);
    player.update(&input, &game_time, &level);
    assert_eq!(player.position, Vector2i::new(104, 48));
    assert_eq!(player.move_dir, MoveDirection::UP);
    assert_eq!(player.rotation, 270);
}

#[test]
fn displacement_is_axis_aligned() {
    let game_time = frame_time(16);
    let mut player = Player::new(0, 0, Vector2i::new(8, 8), 2);
    player.move_dir = MoveDirection::UP;
    let up = player.get_new_movement(&game_time);
    assert_eq!(up, Vector2i::new(0, -32));
    player.move_dir = MoveDirection::LEFT;
    let left = player.get_new_movement(&game_time);
    assert_eq!(left, Vector2i::new(-32, 0));
    player.move_dir = MoveDirection::NONE;
    let still = player.get_new_movement(&game_time);
    assert_eq!(still, Vector2i::new(0, 0));
}

#[test]
fn update_moves_through_open_space() {
    let map = open_map(8, 8);
    let level = Level::new_with_map(Vector2u::new(8, 8), map);
    let mut player = Player::new(100, 100, Vector2i::new(8, 8), 1);
    player.move_dir = MoveDirection::RIGHT;
    player.initial_dir = MoveDirection::RIGHT;
    let input = Input::new();
    let game_time = frame_time(10);
    player.update(&input, &game_time, &level);
    assert_eq!(player.position, Vector2i::new(110, 100));
    assert_eq!(player.rotation, 0);
}

#[test]
fn rotation_follows_the_direction() {
    let mut player = Player::new(0, 0, Vector2i::new(8, 8), 1);
    player.move_dir = MoveDirection::UP;
    player.update_rotation();
    assert_eq!(player.rotation, 270);
    player.move_dir = MoveDirection::DOWN;
    player.update_rotation();
    assert_eq!(player.rotation, 90);
    player.move_dir = MoveDirection::LEFT;
    player.update_rotation();
    assert_eq!(player.rotation, 180);
    player.move_dir = MoveDirection::NONE;
    player.update_rotation();
    assert_eq!(player.rotation, 180);
    player.move_dir = MoveDirection::RIGHT;
    player.update_rotation();
    assert_eq!(player.rotation, 0);
}

#[test]
fn get_size_doubles_the_half_size() {
    let player = Player::new(0, 0, Vector2i::new(8, 12), 1);
    let size = player.get_size();
    assert_eq!(size, Vector2i::new(16, 24));
}
