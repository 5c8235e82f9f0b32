use tilegame::appearance::{IntraCellPosition, _2by2};
use tilegame::colour::{BLUE, FLOOR};
use tilegame::constants::{HUD_LEFT_EDGE, SCREEN_WIDTH};
use tilegame::framebuffer::Framebuffer;
use tilegame::game::{update_and_render, HUD_COLOUR};
use tilegame::input::{Input, BUTTON_B, BUTTON_LEFT, BUTTON_RIGHT};
use tilegame::state::{Mode, COMPONENT_APPEARANCE, GameState, AVATAR_ID, SELECTRIX_ID};

fn idle() -> Input {
    Input { gamepad: 0, previous_gamepad: 0 }
}

fn press(buttons: u8) -> Input {
    Input { gamepad: buttons, previous_gamepad: 0 }
}

#[test]
fn left_press_moves_the_avatar_and_arms_the_slide() {
    let mut gs = GameState::new();
    gs.positions[AVATAR_ID] = (5, 5);
    let mut fb = Framebuffer::new();

    update_and_render(&mut gs, &mut fb, press(BUTTON_LEFT));

    assert_eq!(gs.positions[AVATAR_ID], (4, 5));
    // The sprite starts one cell back and slides in.
    assert_eq!(gs.appearances[AVATAR_ID].offset, (32, 0));
}

#[test]
fn the_slide_decays_to_zero_in_exactly_four_idle_frames() {
    let mut gs = GameState::new();
    gs.positions[AVATAR_ID] = (5, 5);
    let mut fb = Framebuffer::new();

    update_and_render(&mut gs, &mut fb, press(BUTTON_LEFT));

    let mut seen = Vec::new();
    for _ in 0..4 {
        update_and_render(&mut gs, &mut fb, idle());
        seen.push(gs.appearances[AVATAR_ID].offset.0);
    }
    assert_eq!(seen, vec![24, 16, 8, 0]);
    assert_eq!(gs.positions[AVATAR_ID], (4, 5));
}

#[test]
fn movement_is_ignored_while_a_slide_is_live() {
    let mut gs = GameState::new();
    gs.positions[AVATAR_ID] = (5, 5);
    let mut fb = Framebuffer::new();

    update_and_render(&mut gs, &mut fb, press(BUTTON_LEFT));
    // A fresh edge on the very next frame: the offset is still draining,
    // so the avatar stays put.
    update_and_render(&mut gs, &mut fb, press(BUTTON_LEFT));

    assert_eq!(gs.positions[AVATAR_ID], (4, 5));
    assert_eq!(gs.appearances[AVATAR_ID].offset, (24, 0));
}

#[test]
fn movement_clamps_at_the_board_edge() {
    let mut gs = GameState::new();
    let mut fb = Framebuffer::new();

    // The avatar starts at (0, 0): moving left does nothing.
    update_and_render(&mut gs, &mut fb, press(BUTTON_LEFT));

    assert_eq!(gs.positions[AVATAR_ID], (0, 0));
    assert_eq!(gs.appearances[AVATAR_ID].offset, (0, 0));
}

#[test]
fn held_arrow_does_not_keep_moving() {
    let mut gs = GameState::new();
    gs.positions[AVATAR_ID] = (5, 5);
    let mut fb = Framebuffer::new();

    update_and_render(&mut gs, &mut fb, press(BUTTON_LEFT));
    for _ in 0..4 {
        update_and_render(&mut gs, &mut fb, idle());
    }
    // Still held from last frame: no rising edge, no move.
    update_and_render(
        &mut gs,
        &mut fb,
        Input { gamepad: BUTTON_LEFT, previous_gamepad: BUTTON_LEFT },
    );
    assert_eq!(gs.positions[AVATAR_ID], (4, 5));
}

#[test]
fn toggle_shows_the_selectrix_and_switches_mode() {
    let mut gs = GameState::new();
    let mut fb = Framebuffer::new();
    let hidden_mask = gs.entities[SELECTRIX_ID];

    update_and_render(&mut gs, &mut fb, press(BUTTON_B));
    assert!(gs.mode == Mode::MoveSelectrix);
    assert_eq!(gs.entities[SELECTRIX_ID], hidden_mask | COMPONENT_APPEARANCE);
    assert!(gs.is_selectrix(SELECTRIX_ID));

    update_and_render(&mut gs, &mut fb, press(BUTTON_B));
    assert!(gs.mode == Mode::MoveAvatar);
    assert_eq!(gs.entities[SELECTRIX_ID], hidden_mask);
}

#[test]
fn holding_the_toggle_button_switches_only_once() {
    let mut gs = GameState::new();
    let mut fb = Framebuffer::new();

    update_and_render(&mut gs, &mut fb, press(BUTTON_B));
    update_and_render(
        &mut gs,
        &mut fb,
        Input { gamepad: BUTTON_B, previous_gamepad: BUTTON_B },
    );
    assert!(gs.mode == Mode::MoveSelectrix);
}

#[test]
fn selectrix_moves_by_cell_and_sub_slot_with_a_half_slide() {
    let mut gs = GameState::new();
    let mut fb = Framebuffer::new();

    update_and_render(&mut gs, &mut fb, press(BUTTON_B));
    update_and_render(&mut gs, &mut fb, press(BUTTON_RIGHT));

    assert_eq!(gs.positions[SELECTRIX_ID], (1, 0));
    assert!(gs.intra_cell_positions[SELECTRIX_ID] == IntraCellPosition::Four(_2by2::_1_0));
    assert_eq!(gs.appearances[SELECTRIX_ID].offset, (-16, 0));
}

#[test]
fn avatar_ignores_arrows_in_selectrix_mode() {
    let mut gs = GameState::new();
    gs.positions[AVATAR_ID] = (5, 5);
    let mut fb = Framebuffer::new();

    update_and_render(&mut gs, &mut fb, press(BUTTON_B));
    update_and_render(&mut gs, &mut fb, press(BUTTON_LEFT));

    assert_eq!(gs.positions[AVATAR_ID], (5, 5));
}

#[test]
fn a_frame_paints_floor_avatar_and_hud() {
    let mut gs = GameState::new();
    let mut fb = Framebuffer::new();

    update_and_render(&mut gs, &mut fb, idle());

    // Cell (0, 0)'s top-left pixel shows the floor tile.
    assert_eq!(fb.buffer[1 * SCREEN_WIDTH + 1], FLOOR);
    // The avatar's inset rectangle covers the cell's interior with a
    // uniform four-pixel margin: pixels 5..29 in both directions.
    assert_eq!(fb.buffer[6 * SCREEN_WIDTH + 6], BLUE);
    assert_eq!(fb.buffer[28 * SCREEN_WIDTH + 6], BLUE);
    assert_eq!(fb.buffer[29 * SCREEN_WIDTH + 6], FLOOR);
    assert_eq!(fb.buffer[6 * SCREEN_WIDTH + 28], BLUE);
    assert_eq!(fb.buffer[6 * SCREEN_WIDTH + 29], FLOOR);
    // The reserved right-hand strip holds the HUD placeholder.
    assert_eq!(fb.buffer[0 * SCREEN_WIDTH + HUD_LEFT_EDGE], HUD_COLOUR);
    assert_eq!(fb.buffer[239 * SCREEN_WIDTH + SCREEN_WIDTH - 1], HUD_COLOUR);
    // The gridline pixel between cells stays clear.
    assert_eq!(fb.buffer[0], 0);
}
