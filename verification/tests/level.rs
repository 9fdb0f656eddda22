use rustman_core::level::Level;
use rustman_core::level_object::LevelType;
use rustman_core::units::{Color, Vector2u};

fn open_map(width: usize, height: usize) -> Vec<Vec<LevelType>> {
    let mut map = Vec::new();
    for _ in 0..width {
        let mut column = Vec::new();
        for _ in 0..height {
            column.push(LevelType::SPACE);
        }
        map.push(column);
    }
    map
}

#[test]
fn get_tile_returns_stored_kinds() {
    let mut map = open_map(3, 2);
    map[2][1] = LevelType::WALL;
    let level = Level::new_with_map(Vector2u::new(3, 2), map);
    assert_eq!(level.get_tile(2, 1).level_type, LevelType::WALL);
    assert_eq!(level.get_tile(0, 0).level_type, LevelType::SPACE);
    assert_eq!(level.get_tile(1, 1).level_type, LevelType::SPACE);
}

#[test]
fn get_tile_clamps_low_x_to_first_column() {
    let mut map = open_map(3, 2);
    map[0][1] = LevelType::WALL;
    let level = Level::new_with_map(Vector2u::new(3, 2), map);
    assert_eq!(level.get_tile(-1, 1), level.get_tile(0, 1));
    assert_eq!(level.get_tile(-100, 1).level_type, LevelType::WALL);
}

#[test]
fn get_tile_clamps_high_x_to_last_column() {
    let mut map = open_map(3, 2);
    map[2][0] = LevelType::WALL;
    let level = Level::new_with_map(Vector2u::new(3, 2), map);
    assert_eq!(level.get_tile(3, 0), level.get_tile(2, 0));
    assert_eq!(level.get_tile(99, 0).level_type, LevelType::WALL);
}

#[test]
fn get_tile_clamps_y_to_both_edges() {
    let mut map = open_map(3, 2);
    map[1][0] = LevelType::WALL;
    map[2][1] = LevelType::WALL;
    let level = Level::new_with_map(Vector2u::new(3, 2), map);
    assert_eq!(level.get_tile(1, -7), level.get_tile(1, 0));
    assert_eq!(level.get_tile(1, -7).level_type, LevelType::WALL);
    assert_eq!(level.get_tile(2, 12), level.get_tile(2, 1));
    assert_eq!(level.get_tile(2, 12).level_type, LevelType::WALL);
}

#[test]
fn tile_rects_cover_the_grid() {
    let map = open_map(3, 2);
    let level = Level::new_with_map(Vector2u::new(3, 2), map);
    let tile = level.get_tile(2, 1);
    assert_eq!(tile.rect.left, 64);
    assert_eq!(tile.rect.top, 32);
    assert_eq!(tile.rect.width, 32);
    assert_eq!(tile.rect.height, 32);
}

#[test]
fn world_to_tile_snaps_down() {
    assert_eq!(Level::world_to_tile(0, 0), (0, 0));
    assert_eq!(Level::world_to_tile(31, 31), (0, 0));
    assert_eq!(Level::world_to_tile(32, 63), (1, 1));
    assert_eq!(Level::world_to_tile(101, 50), (3, 1));
}

#[test]
fn world_to_tile_floors_negative_coordinates() {
    assert_eq!(Level::world_to_tile(-1, -32), (-1, -1));
    assert_eq!(Level::world_to_tile(-33, -1), (-2, -1));
}

#[test]
fn tile_to_world_is_the_top_left_corner() {
    let corner = Level::tile_to_world(3, 1);
    assert_eq!((corner.x, corner.y), (96, 32));
    let origin = Level::tile_to_world(0, 0);
    assert_eq!((origin.x, origin.y), (0, 0));
    let negative = Level::tile_to_world(-1, -1);
    assert_eq!((negative.x, negative.y), (-32, -32));
}

#[test]
fn world_tile_round_trip() {
    for &(tx, ty) in &[(0, 0), (1, 2), (5, 7), (-1, -1), (-4, 9), (1000, -1000)] {
        let corner = Level::tile_to_world(tx, ty);
        assert_eq!(Level::world_to_tile(corner.x, corner.y), (tx, ty));
    }
}

#[test]
fn text_map_marks_hashes_as_walls() {
    let rows: Vec<Vec<char>> = vec![
        "###".chars().collect(),
        "# .".chars().collect(),
    ];
    let level = Level::new_with_text(&rows);
    assert_eq!(level.size, Vector2u::new(3, 2));
    assert_eq!(level.get_tile(0, 0).level_type, LevelType::WALL);
    assert_eq!(level.get_tile(1, 0).level_type, LevelType::WALL);
    assert_eq!(level.get_tile(2, 0).level_type, LevelType::WALL);
    assert_eq!(level.get_tile(0, 1).level_type, LevelType::WALL);
    assert_eq!(level.get_tile(1, 1).level_type, LevelType::SPACE);
    assert_eq!(level.get_tile(2, 1).level_type, LevelType::SPACE);
}

#[test]
fn image_map_marks_exact_opaque_blue_as_wall() {
    // A 1x1 image comes with a 2x2 pixel block (one extra row and column).
    let blue = Color::new(0, 0, 255, 255);
    let translucent_blue = Color::new(0, 0, 255, 254);
    let pixels = vec![blue, translucent_blue, translucent_blue, translucent_blue];
    let level = Level::new_with_image(Vector2u::new(1, 1), &pixels);
    assert_eq!(level.size, Vector2u::new(1, 1));
    assert_eq!(level.get_tile(0, 0).level_type, LevelType::WALL);
}

#[test]
fn image_map_keeps_other_pixels_open() {
    let blue = Color::new(0, 0, 255, 255);
    let red = Color::new(255, 0, 0, 255);
    // A 2x1 image comes with a 3x2 pixel block, row-major.
    let pixels = vec![red, blue, red, red, red, red];
    let level = Level::new_with_image(Vector2u::new(2, 1), &pixels);
    assert_eq!(level.get_tile(0, 0).level_type, LevelType::SPACE);
    assert_eq!(level.get_tile(1, 0).level_type, LevelType::WALL);
}
