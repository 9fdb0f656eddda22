use rustman_core::level_object::LevelType;
use rustman_core::sprite_sheet::{get_background_rect, get_foreground_frames, SpriteType};
use rustman_core::units::Rect;

#[test]
fn background_rects_come_from_the_first_row() {
    assert_eq!(get_background_rect(&LevelType::WALL), Rect::new(0, 0, 64, 64));
    assert_eq!(get_background_rect(&LevelType::SPACE), Rect::new(64, 0, 64, 64));
}

#[test]
fn player_frames_come_from_the_second_row() {
    let frames = get_foreground_frames(&SpriteType::PLAYER);
    assert_eq!(frames.len(), 3);
    assert_eq!(frames[0], Rect::new(0, 64, 64, 64));
    assert_eq!(frames[1], Rect::new(64, 64, 64, 64));
    assert_eq!(frames[2], Rect::new(128, 64, 64, 64));
}
