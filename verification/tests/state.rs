use tilegame::appearance::Shape;
use tilegame::colour::{BLUE, FLOOR, RED};
use tilegame::state::{
    GameState, Mode, PlayerType, State, AVATAR_ID, COMPONENT_APPEARANCE,
    COMPONENT_INTRA_CELL_POSITION, COMPONENT_PLAYER, COMPONENT_PLAYER_CONTROLLED,
    COMPONENT_POSITION, ENTITY_COUNT, SELECTRIX_ID,
};

#[test]
fn arrays_have_one_slot_per_entity() {
    let gs = GameState::new();
    assert_eq!(gs.entities.len(), ENTITY_COUNT);
    assert_eq!(gs.positions.len(), ENTITY_COUNT);
    assert_eq!(gs.appearances.len(), ENTITY_COUNT);
    assert_eq!(gs.intra_cell_positions.len(), ENTITY_COUNT);
    assert_eq!(gs.player_types.len(), ENTITY_COUNT);
}

#[test]
fn every_board_cell_gets_a_floor_tile() {
    let gs = GameState::new();
    for i in 0..36 {
        assert_eq!(gs.entities[i], COMPONENT_POSITION | COMPONENT_APPEARANCE);
        assert_eq!(gs.positions[i], ((i % 6) as u8, (i / 6) as u8));
        assert_eq!(gs.appearances[i].colour, FLOOR);
        assert!(gs.appearances[i].shape == Shape::FullCell);
    }
}

#[test]
fn the_avatar_is_seeded_after_the_floor() {
    let gs = GameState::new();
    assert_eq!(gs.entities[AVATAR_ID], COMPONENT_PLAYER);
    assert_eq!(gs.positions[AVATAR_ID], (0, 0));
    assert_eq!(gs.appearances[AVATAR_ID].colour, BLUE);
    assert!(gs.appearances[AVATAR_ID].shape == Shape::Player);
    assert!(gs.is_avatar(AVATAR_ID));
    assert!(!gs.is_avatar(0));
    assert!(!gs.is_avatar(SELECTRIX_ID));
}

#[test]
fn nine_orb_pips_share_one_cell() {
    let gs = GameState::new();
    for i in 37..46 {
        assert_eq!(
            gs.entities[i],
            COMPONENT_POSITION | COMPONENT_APPEARANCE | COMPONENT_INTRA_CELL_POSITION
        );
        assert_eq!(gs.positions[i], (3, 4));
        assert_eq!(gs.appearances[i].colour, RED);
        assert!(gs.appearances[i].shape == Shape::DeadOrb0);
    }
}

#[test]
fn four_blob_quarters_share_one_cell() {
    let gs = GameState::new();
    for i in 46..50 {
        assert_eq!(gs.positions[i], (4, 3));
        assert!(gs.appearances[i].shape == Shape::Blob0);
    }
}

#[test]
fn the_selectrix_starts_hidden() {
    let gs = GameState::new();
    assert_eq!(gs.selectrix_id, SELECTRIX_ID);
    assert_eq!(
        gs.entities[SELECTRIX_ID],
        COMPONENT_POSITION | COMPONENT_PLAYER_CONTROLLED | COMPONENT_INTRA_CELL_POSITION
    );
    assert!(gs.player_types[SELECTRIX_ID] == PlayerType::Selectrix);
    // Without its appearance bit it is not yet a live selectrix.
    assert!(!gs.is_selectrix(SELECTRIX_ID));
}

#[test]
fn remaining_slots_are_empty() {
    let gs = GameState::new();
    for i in 51..ENTITY_COUNT {
        assert_eq!(gs.entities[i], 0);
    }
}

#[test]
fn the_world_starts_in_avatar_mode() {
    let gs = GameState::new();
    assert!(gs.mode == Mode::MoveAvatar);
}

#[test]
fn fresh_state_bundles_world_framebuffer_and_input() {
    let s = State::new();
    assert!(s.game_state.mode == Mode::MoveAvatar);
    assert!(s.framebuffer.buffer.iter().all(|&p| p == 0));
    assert_eq!(s.input.gamepad, 0);
    assert_eq!(s.input.previous_gamepad, 0);
}
