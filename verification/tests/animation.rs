use rustman_core::animation_sprite::AnimationSprite;
use rustman_core::game_time::GameTime;
use rustman_core::sprite_sheet::{get_foreground_frames, SpriteType};
use rustman_core::units::Rect;

fn three_frames() -> Vec<Rect> {
    get_foreground_frames(&SpriteType::PLAYER)
}

fn time_at(start_frame_time: i32) -> GameTime {
    let mut game_time = GameTime::new(0);
    game_time.begin_frame(start_frame_time);
    game_time
}

#[test]
fn ping_pong_sequence_over_three_frames() {
    // N = 3 frames gives amplitude L = 2 and period 4: the index touches
    // every frame and oscillates instead of wrapping.
    let expected = [0, 1, 2, 1, 0, 1, 2, 1];
    for (counter, &index) in expected.iter().enumerate() {
        assert_eq!(AnimationSprite::ping_pong(counter as i32, 2), index);
    }
}

#[test]
fn ping_pong_stays_in_range() {
    for counter in 0..64 {
        let index = AnimationSprite::ping_pong(counter, 4);
        assert!(0 <= index && index <= 4);
    }
}

#[test]
fn new_animation_starts_at_the_first_frame() {
    let sprite = AnimationSprite::new(three_frames());
    assert_eq!(sprite.current_animation_frame, 0);
    assert_eq!(sprite.displayed_frame, 0);
    assert!(sprite.looping);
    assert_eq!(sprite.frame_delay, 100);
    assert_eq!(sprite.current_frame_rect(), three_frames()[0]);
}

#[test]
fn update_advances_after_the_frame_delay() {
    let mut sprite = AnimationSprite::new(three_frames());
    sprite.update(&time_at(101));
    assert_eq!(sprite.current_animation_frame, 1);
    assert_eq!(sprite.displayed_frame, 1);
    assert_eq!(sprite.last_time_animation_changed, 101);
    assert_eq!(sprite.current_frame_rect(), three_frames()[1]);
}

#[test]
fn update_before_the_delay_changes_nothing() {
    let mut sprite = AnimationSprite::new(three_frames());
    sprite.update(&time_at(100));
    assert_eq!(sprite.current_animation_frame, 0);
    assert_eq!(sprite.displayed_frame, 0);
    assert_eq!(sprite.last_time_animation_changed, 0);
}

#[test]
fn updates_cycle_back_and_forth() {
    let mut sprite = AnimationSprite::new(three_frames());
    let mut displayed = Vec::new();
    let mut now = 0;
    for _ in 0..8 {
        now += 101;
        sprite.update(&time_at(now));
        displayed.push(sprite.displayed_frame);
    }
    assert_eq!(displayed, vec![1, 2, 1, 0, 1, 2, 1, 0]);
}

#[test]
fn counter_wraps_at_four_times_the_frame_count() {
    let mut sprite = AnimationSprite::new(three_frames());
    let mut now = 0;
    for _ in 0..12 {
        now += 101;
        sprite.update(&time_at(now));
    }
    assert_eq!(sprite.current_animation_frame, 0);
}

#[test]
fn stopped_animation_records_time_but_does_not_advance() {
    let mut sprite = AnimationSprite::new(three_frames());
    sprite.stop_animation();
    sprite.update(&time_at(250));
    assert_eq!(sprite.current_animation_frame, 0);
    assert_eq!(sprite.displayed_frame, 0);
    assert_eq!(sprite.last_time_animation_changed, 250);
}

#[test]
fn start_resumes_a_stopped_animation() {
    let mut sprite = AnimationSprite::new(three_frames());
    sprite.stop_animation();
    assert!(!sprite.looping);
    sprite.start_animation();
    assert!(sprite.looping);
    sprite.update(&time_at(101));
    assert_eq!(sprite.current_animation_frame, 1);
}

#[test]
fn reset_rewinds_counter_and_timestamp_only() {
    let mut sprite = AnimationSprite::new(three_frames());
    sprite.update(&time_at(101));
    sprite.update(&time_at(202));
    assert_eq!(sprite.displayed_frame, 2);
    sprite.reset_animation();
    assert_eq!(sprite.current_animation_frame, 0);
    assert_eq!(sprite.last_time_animation_changed, 0);
    assert_eq!(sprite.displayed_frame, 2);
}
