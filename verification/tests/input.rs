use tilegame::input::{Input, BUTTON_B, BUTTON_LEFT, BUTTON_RIGHT};

#[test]
fn fresh_input_reports_no_press() {
    let input = Input::new();
    assert!(!input.pressed_this_frame(BUTTON_B));
}

#[test]
fn rising_edge_reports_a_press() {
    let input = Input { gamepad: BUTTON_LEFT, previous_gamepad: 0 };
    assert!(input.pressed_this_frame(BUTTON_LEFT));
}

#[test]
fn held_button_reports_no_press() {
    let input = Input { gamepad: BUTTON_LEFT, previous_gamepad: BUTTON_LEFT };
    assert!(!input.pressed_this_frame(BUTTON_LEFT));
}

#[test]
fn released_button_reports_no_press() {
    let input = Input { gamepad: 0, previous_gamepad: BUTTON_LEFT };
    assert!(!input.pressed_this_frame(BUTTON_LEFT));
}

#[test]
fn combination_uses_a_subset_test() {
    // Left was already held; the pair Left+Right still counts as a fresh
    // press because the pair was not fully held last frame.
    let input = Input { gamepad: BUTTON_LEFT | BUTTON_RIGHT, previous_gamepad: BUTTON_LEFT };
    assert!(input.pressed_this_frame(BUTTON_LEFT | BUTTON_RIGHT));
    // The single button Left alone is not a fresh press.
    assert!(!input.pressed_this_frame(BUTTON_LEFT));
}

#[test]
fn combination_needs_every_button_held() {
    let input = Input { gamepad: BUTTON_LEFT, previous_gamepad: 0 };
    assert!(!input.pressed_this_frame(BUTTON_LEFT | BUTTON_RIGHT));
}
