use rustman_core::input::{Event, Input, KEY_A, KEY_D, KEY_ESCAPE, KEY_S, KEY_W};

#[test]
fn key_codes_are_distinct() {
    let codes = [KEY_A, KEY_D, KEY_S, KEY_W, KEY_ESCAPE];
    for i in 0..codes.len() {
        for j in 0..codes.len() {
            if i != j {
                assert_ne!(codes[i], codes[j]);
            }
        }
    }
}

#[test]
fn new_input_reports_nothing() {
    let input = Input::new();
    assert!(!input.is_key_held_down(KEY_W));
    assert!(!input.is_key_down(KEY_W));
    assert!(!input.is_key_up(KEY_W));
}

#[test]
fn key_press_marks_down_and_held() {
    let mut input = Input::new();
    input.check_input(Event::KeyPressed { code: KEY_W });
    assert!(input.is_key_down(KEY_W));
    assert!(input.is_key_held_down(KEY_W));
    assert!(!input.is_key_up(KEY_W));
    assert!(!input.is_key_down(KEY_S));
}

#[test]
fn key_release_marks_up_and_clears_held() {
    let mut input = Input::new();
    input.check_input(Event::KeyPressed { code: KEY_D });
    input.check_input(Event::KeyReleased { code: KEY_D });
    assert!(input.is_key_up(KEY_D));
    assert!(!input.is_key_held_down(KEY_D));
    assert!(input.is_key_down(KEY_D));
}

#[test]
fn clear_input_drops_transients_but_keeps_held() {
    let mut input = Input::new();
    input.check_input(Event::KeyPressed { code: KEY_A });
    input.check_input(Event::KeyReleased { code: KEY_S });
    input.clear_input();
    assert!(!input.is_key_down(KEY_A));
    assert!(!input.is_key_up(KEY_S));
    assert!(input.is_key_held_down(KEY_A));
    assert!(!input.is_key_held_down(KEY_S));
}

#[test]
fn other_events_change_nothing() {
    let mut input = Input::new();
    input.check_input(Event::KeyPressed { code: KEY_W });
    input.check_input(Event::Other);
    assert!(input.is_key_down(KEY_W));
    assert!(input.is_key_held_down(KEY_W));
}
