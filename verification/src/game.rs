//! The per-frame update/render cycle and the mode state machine.
//!
//! One call advances every entity for the frame (movement or slide-offset
//! decay, by the current mode), then lets a rising edge of the mode-toggle
//! button switch mode and show or hide the selectrix, and finally repaints
//! the framebuffer in full: clear, every visible entity, then the HUD
//! strip.

use vstd::prelude::*;

use crate::appearance::Appearance;
use crate::appearance::IntraCellPosition;
use crate::appearance::spec_intra_offset;
use crate::appearance::spec_render_at_offset;
use crate::appearance::step_toward_zero;
use crate::board::BOARD_HEIGHT;
use crate::board::BOARD_WIDTH;
use crate::board::Position;
use crate::constants::CELL_HEIGHT;
use crate::constants::CELL_WIDTH;
use crate::constants::HUD_LEFT_EDGE;
use crate::constants::HUD_WIDTH;
use crate::constants::SCREEN_HEIGHT;
use crate::framebuffer::Framebuffer;
use crate::framebuffer::spec_fill_region;
use crate::input::BUTTON_B;
use crate::input::BUTTON_DOWN;
use crate::input::BUTTON_LEFT;
use crate::input::BUTTON_RIGHT;
use crate::input::BUTTON_UP;
use crate::input::Input;
use crate::input::spec_pressed_this_frame;
use crate::state::COMPONENT_APPEARANCE;
use crate::state::COMPONENT_INTRA_CELL_POSITION;
use crate::state::COMPONENT_POSITION;
use crate::state::ENTITY_COUNT;
use crate::state::GameState;
use crate::state::GameStateView;
use crate::state::Mode;
use crate::state::mask_has;
use crate::state::spec_is_avatar;
use crate::state::spec_is_selectrix;

verus! {

/// The colour of the HUD placeholder strip.
pub const HUD_COLOUR: u32 = 0xFF333333;

/// The slide-offset decay step, in pixels per frame.
pub const OFFSET_STEP: isize = 8;

/// Both offset components moved `step` toward zero.
pub open spec fn reduced_offset(off: (isize, isize), step: int) -> (isize, isize) {
    (
        step_toward_zero(off.0 as int, step) as isize,
        step_toward_zero(off.1 as int, step) as isize,
    )
}

/// One frame of the avatar: while a slide offset is live it decays and
/// movement is ignored; otherwise each pressed arrow edge moves one cell,
/// clamped to the board, and arms the offset one cell opposite the travel.
pub open spec fn step_avatar(pos: Position, app: Appearance, input: Input) -> (
    Position,
    Appearance,
) {
    if crate::appearance::spec_is_offset(app) {
        (
            pos,
            Appearance {
                colour: app.colour,
                shape: app.shape,
                offset: reduced_offset(app.offset, OFFSET_STEP as int),
            },
        )
    } else {
        let x0 = pos.0;
        let y0 = pos.1;
        let left = spec_pressed_this_frame(input, BUTTON_LEFT) && x0 > 0;
        let x1 = if left {
            (x0 - 1) as u8
        } else {
            x0
        };
        let ox1 = if left {
            CELL_WIDTH as isize
        } else {
            app.offset.0
        };
        let right = spec_pressed_this_frame(input, BUTTON_RIGHT) && x1 < BOARD_WIDTH - 1;
        let x2 = if right {
            (x1 + 1) as u8
        } else {
            x1
        };
        let ox2 = if right {
            (-(CELL_WIDTH as int)) as isize
        } else {
            ox1
        };
        let up = spec_pressed_this_frame(input, BUTTON_UP) && y0 > 0;
        let y1 = if up {
            (y0 - 1) as u8
        } else {
            y0
        };
        let oy1 = if up {
            CELL_WIDTH as isize
        } else {
            app.offset.1
        };
        let down = spec_pressed_this_frame(input, BUTTON_DOWN) && y1 < BOARD_HEIGHT - 1;
        let y2 = if down {
            (y1 + 1) as u8
        } else {
            y1
        };
        let oy2 = if down {
            (-(CELL_WIDTH as int)) as isize
        } else {
            oy1
        };
        ((x2, y2), Appearance { colour: app.colour, shape: app.shape, offset: (ox2, oy2) })
    }
}

/// One frame of the selectrix: as the avatar, but each move also shifts
/// the intra-cell slot one step in the pressed direction (stopping at the
/// sub-grid edge) and arms only a half-cell slide offset.
pub open spec fn step_selectrix(
    pos: Position,
    app: Appearance,
    intra: IntraCellPosition,
    input: Input,
) -> (Position, Appearance, IntraCellPosition) {
    if crate::appearance::spec_is_offset(app) {
        (
            pos,
            Appearance {
                colour: app.colour,
                shape: app.shape,
                offset: reduced_offset(app.offset, OFFSET_STEP as int),
            },
            intra,
        )
    } else {
        let x0 = pos.0;
        let y0 = pos.1;
        let left = spec_pressed_this_frame(input, BUTTON_LEFT) && x0 > 0;
        let x1 = if left {
            (x0 - 1) as u8
        } else {
            x0
        };
        let i1 = if left {
            crate::appearance::spec_intra_left(intra)
        } else {
            intra
        };
        let ox1 = if left {
            (CELL_WIDTH / 2) as isize
        } else {
            app.offset.0
        };
        let right = spec_pressed_this_frame(input, BUTTON_RIGHT) && x1 < BOARD_WIDTH - 1;
        let x2 = if right {
            (x1 + 1) as u8
        } else {
            x1
        };
        let i2 = if right {
            crate::appearance::spec_intra_right(i1)
        } else {
            i1
        };
        let ox2 = if right {
            (-(CELL_WIDTH as int / 2)) as isize
        } else {
            ox1
        };
        let up = spec_pressed_this_frame(input, BUTTON_UP) && y0 > 0;
        let y1 = if up {
            (y0 - 1) as u8
        } else {
            y0
        };
        let i3 = if up {
            crate::appearance::spec_intra_up(i2)
        } else {
            i2
        };
        let oy1 = if up {
            (CELL_HEIGHT / 2) as isize
        } else {
            app.offset.1
        };
        let down = spec_pressed_this_frame(input, BUTTON_DOWN) && y1 < BOARD_HEIGHT - 1;
        let y2 = if down {
            (y1 + 1) as u8
        } else {
            y1
        };
        let i4 = if down {
            crate::appearance::spec_intra_down(i3)
        } else {
            i3
        };
        let oy2 = if down {
            (-(CELL_HEIGHT as int / 2)) as isize
        } else {
            oy1
        };
        ((x2, y2), Appearance { colour: app.colour, shape: app.shape, offset: (ox2, oy2) }, i4)
    }
}

/// The movement phase for entity `i`: the avatar moves in avatar mode, the
/// selectrix in selectrix mode, and every other entity is untouched.
pub open spec fn update_entity(gs: GameStateView, input: Input, i: int) -> (
    Position,
    Appearance,
    IntraCellPosition,
) {
    if gs.mode == Mode::MoveAvatar && spec_is_avatar(gs, i) {
        let r = step_avatar(gs.positions[i], gs.appearances[i], input);
        (r.0, r.1, gs.intra_cell_positions[i])
    } else if gs.mode == Mode::MoveSelectrix && spec_is_selectrix(gs, i) {
        step_selectrix(gs.positions[i], gs.appearances[i], gs.intra_cell_positions[i], input)
    } else {
        (gs.positions[i], gs.appearances[i], gs.intra_cell_positions[i])
    }
}

/// The movement phase over every entity; masks, roles and mode are
/// untouched.
pub open spec fn update_phase(gs: GameStateView, input: Input) -> GameStateView {
    GameStateView {
        entities: gs.entities,
        positions: Seq::new(gs.positions.len(), |i: int| update_entity(gs, input, i).0),
        appearances: Seq::new(gs.appearances.len(), |i: int| update_entity(gs, input, i).1),
        intra_cell_positions: Seq::new(
            gs.intra_cell_positions.len(),
            |i: int| update_entity(gs, input, i).2,
        ),
        player_types: gs.player_types,
        mode: gs.mode,
        selectrix_id: gs.selectrix_id,
    }
}

/// The mode machine: a rising edge of the toggle button switches mode;
/// entering selectrix mode sets the selectrix's appearance bit (shows it),
/// leaving clears the bit (hides it).
pub open spec fn toggle_phase(gs: GameStateView, input: Input) -> GameStateView {
    if spec_pressed_this_frame(input, BUTTON_B) {
        if gs.mode == Mode::MoveAvatar {
            GameStateView {
                entities: gs.entities.update(
                    gs.selectrix_id,
                    gs.entities[gs.selectrix_id] | COMPONENT_APPEARANCE,
                ),
                mode: Mode::MoveSelectrix,
                ..gs
            }
        } else {
            GameStateView {
                entities: gs.entities.update(
                    gs.selectrix_id,
                    gs.entities[gs.selectrix_id] & !COMPONENT_APPEARANCE,
                ),
                mode: Mode::MoveAvatar,
                ..gs
            }
        }
    } else {
        gs
    }
}

/// The frame's whole effect on the store: movement, then the mode machine.
pub open spec fn spec_update(gs: GameStateView, input: Input) -> GameStateView {
    toggle_phase(update_phase(gs, input), input)
}

/// The draw calls entity `i` issues: the selectrix only in selectrix mode
/// at its intra-cell slot; any entity with position, appearance and an
/// intra-cell slot at that slot; any with position and appearance at its
/// own slide offset; others nothing.
pub open spec fn render_entity(fb: Seq<u32>, gs: GameStateView, i: int) -> Seq<u32> {
    if spec_is_selectrix(gs, i) {
        if gs.mode == Mode::MoveSelectrix {
            spec_render_at_offset(
                fb,
                gs.appearances[i],
                gs.positions[i],
                spec_intra_offset(gs.intra_cell_positions[i]),
            )
        } else {
            fb
        }
    } else if mask_has(
        gs.entities[i],
        COMPONENT_POSITION | COMPONENT_APPEARANCE | COMPONENT_INTRA_CELL_POSITION,
    ) {
        spec_render_at_offset(
            fb,
            gs.appearances[i],
            gs.positions[i],
            spec_intra_offset(gs.intra_cell_positions[i]),
        )
    } else if mask_has(gs.entities[i], COMPONENT_POSITION | COMPONENT_APPEARANCE) {
        spec_render_at_offset(
            fb,
            gs.appearances[i],
            gs.positions[i],
            (gs.appearances[i].offset.0 as int, gs.appearances[i].offset.1 as int),
        )
    } else {
        fb
    }
}

/// The first `n` entities drawn in id order.
pub open spec fn render_entities(fb: Seq<u32>, gs: GameStateView, n: int) -> Seq<u32>
    decreases n,
{
    if n <= 0 {
        fb
    } else {
        render_entity(render_entities(fb, gs, n - 1), gs, n - 1)
    }
}

/// The frame's whole render pass: clear, every entity in id order, then
/// the HUD placeholder strip over the reserved right-hand band.
pub open spec fn spec_render(fb: Seq<u32>, gs: GameStateView) -> Seq<u32> {
    let cleared = Seq::new(fb.len(), |i: int| 0u32);
    let drawn = render_entities(cleared, gs, ENTITY_COUNT as int);
    spec_fill_region(
        drawn,
        HUD_LEFT_EDGE as int,
        HUD_LEFT_EDGE + HUD_WIDTH,
        0,
        SCREEN_HEIGHT as int,
        HUD_COLOUR,
    )
}

/// The one-cell slide scenario: in avatar mode, an avatar at rest at
/// cell (5, 5) that receives a Left press, with no other arrow edge in
/// the same frame, ends the frame at (4, 5) with its slide offset armed
/// one cell opposite the travel: `(+CELL_WIDTH, 0)`.
pub proof fn lemma_left_press_moves_avatar(gs: GameStateView, input: Input, a: int)
    requires
        gs.wf(),
        0 <= a < ENTITY_COUNT,
        gs.mode == Mode::MoveAvatar,
        spec_is_avatar(gs, a),
        gs.positions[a] == (5u8, 5u8),
        gs.appearances[a].offset == (0isize, 0isize),
        spec_pressed_this_frame(input, BUTTON_LEFT),
        !spec_pressed_this_frame(input, BUTTON_RIGHT),
        !spec_pressed_this_frame(input, BUTTON_UP),
        !spec_pressed_this_frame(input, BUTTON_DOWN),
    ensures
        spec_update(gs, input).positions[a] == (4u8, 5u8),
        spec_update(gs, input).appearances[a].offset == (CELL_WIDTH as isize, 0isize),
{
}

/// One frame of the avatar, executably.
fn avatar_step_exec(pos: Position, app: Appearance, input: Input) -> (r: (Position, Appearance))
    ensures
        r == step_avatar(pos, app, input),
{
    let mut appearance = app;
    if appearance.is_offset() {
        appearance.reduce_offset(OFFSET_STEP);
        (pos, appearance)
    } else {
        let (mut x, mut y) = pos;

        if input.pressed_this_frame(BUTTON_LEFT) && x > 0 {
            x = x - 1;
            appearance.offset = (CELL_WIDTH as isize, appearance.offset.1);
        }
        if input.pressed_this_frame(BUTTON_RIGHT) && x < BOARD_WIDTH - 1 {
            x = x + 1;
            appearance.offset = (-(CELL_WIDTH as isize), appearance.offset.1);
        }
        if input.pressed_this_frame(BUTTON_UP) && y > 0 {
            y = y - 1;
            appearance.offset = (appearance.offset.0, CELL_WIDTH as isize);
        }
        if input.pressed_this_frame(BUTTON_DOWN) && y < BOARD_HEIGHT - 1 {
            y = y + 1;
            appearance.offset = (appearance.offset.0, -(CELL_WIDTH as isize));
        }

        ((x, y), appearance)
    }
}

/// One frame of the selectrix, executably.
fn selectrix_step_exec(
    pos: Position,
    app: Appearance,
    intra: IntraCellPosition,
    input: Input,
) -> (r: (Position, Appearance, IntraCellPosition))
    ensures
        r == step_selectrix(pos, app, intra, input),
{
    let mut appearance = app;
    if appearance.is_offset() {
        appearance.reduce_offset(OFFSET_STEP);
        (pos, appearance, intra)
    } else {
        let (mut x, mut y) = pos;
        let mut inter_pos = intra;

        if input.pressed_this_frame(BUTTON_LEFT) && x > 0 {
            x = x - 1;
            inter_pos = inter_pos.left();
            appearance.offset = ((CELL_WIDTH / 2) as isize, appearance.offset.1);
        }
        if input.pressed_this_frame(BUTTON_RIGHT) && x < BOARD_WIDTH - 1 {
            x = x + 1;
            inter_pos = inter_pos.right();
            appearance.offset = (-((CELL_WIDTH / 2) as isize), appearance.offset.1);
        }
        if input.pressed_this_frame(BUTTON_UP) && y > 0 {
            y = y - 1;
            inter_pos = inter_pos.up();
            appearance.offset = (appearance.offset.0, (CELL_HEIGHT / 2) as isize);
        }
        if input.pressed_this_frame(BUTTON_DOWN) && y < BOARD_HEIGHT - 1 {
            y = y + 1;
            inter_pos = inter_pos.down();
            appearance.offset = (appearance.offset.0, -((CELL_HEIGHT / 2) as isize));
        }

        ((x, y), appearance, inter_pos)
    }
}

/// The single externally driven entry point: advances every entity for
/// the frame by the current mode, runs the mode machine on the toggle
/// edge, and repaints the framebuffer in full from the updated state.
#[verifier::loop_isolation(false)]
pub fn update_and_render(state: &mut GameState, framebuffer: &mut Framebuffer, input: Input)
    requires
        old(state)@.wf(),
    ensures
        final(state)@ == spec_update(old(state)@, input),
        final(state)@.wf(),
        final(framebuffer).buffer@ == spec_render(
            old(framebuffer).buffer@,
            spec_update(old(state)@, input),
        ),
{
    let ghost gs0 = state@;

    // Movement phase, entity by entity.
    let mut i: usize = 0;
    while i < ENTITY_COUNT
        invariant
            i <= ENTITY_COUNT,
            state@.wf(),
            state@.entities == gs0.entities,
            state@.player_types == gs0.player_types,
            state@.mode == gs0.mode,
            state@.selectrix_id == gs0.selectrix_id,
            forall|j: int| 0 <= j < i ==> state@.positions[j] == update_entity(gs0, input, j).0,
            forall|j: int| 0 <= j < i ==> state@.appearances[j] == update_entity(gs0, input, j).1,
            forall|j: int|
                0 <= j < i ==> state@.intra_cell_positions[j] == update_entity(gs0, input, j).2,
            forall|j: int| i <= j < ENTITY_COUNT ==> state@.positions[j] == gs0.positions[j],
            forall|j: int| i <= j < ENTITY_COUNT ==> state@.appearances[j] == gs0.appearances[j],
            forall|j: int|
                i <= j < ENTITY_COUNT ==> state@.intra_cell_positions[j]
                    == gs0.intra_cell_positions[j],
        decreases ENTITY_COUNT - i,
    {
        if state.mode == Mode::MoveAvatar && state.is_avatar(i) {
            let r = avatar_step_exec(state.positions[i], state.appearances[i], input);
            state.positions[i] = r.0;
            state.appearances[i] = r.1;
        } else if state.mode == Mode::MoveSelectrix && state.is_selectrix(i) {
            let r = selectrix_step_exec(
                state.positions[i],
                state.appearances[i],
                state.intra_cell_positions[i],
                input,
            );
            state.positions[i] = r.0;
            state.appearances[i] = r.1;
            state.intra_cell_positions[i] = r.2;
        }
        i = i + 1;
    }
    proof {
        assert(state@.positions =~= update_phase(gs0, input).positions);
        assert(state@.appearances =~= update_phase(gs0, input).appearances);
        assert(state@.intra_cell_positions =~= update_phase(gs0, input).intra_cell_positions);
        assert(state@ == update_phase(gs0, input));
    }
    let ghost gs1 = state@;

    // Mode machine, on the toggle button's rising edge.
    if input.pressed_this_frame(BUTTON_B) {
        let id = state.selectrix_id;
        if state.mode == Mode::MoveAvatar {
            state.entities[id] = state.entities[id] | COMPONENT_APPEARANCE;
            state.mode = Mode::MoveSelectrix;
        } else {
            state.entities[id] = state.entities[id] & !COMPONENT_APPEARANCE;
            state.mode = Mode::MoveAvatar;
        }
    }
    proof {
        assert(state@ == toggle_phase(gs1, input));
    }
    let ghost gs2 = state@;

    // Render phase: everything repainted from the updated state.
    framebuffer.clear();
    let ghost cleared = framebuffer.buffer@;
    proof {
        assert(cleared =~= Seq::new(old(framebuffer).buffer@.len(), |i: int| 0u32));
    }
    let mut i: usize = 0;
    while i < ENTITY_COUNT
        invariant
            i <= ENTITY_COUNT,
            state@ == gs2,
            state@.wf(),
            framebuffer.buffer@ == render_entities(cleared, gs2, i as int),
        decreases ENTITY_COUNT - i,
    {
        let ghost fb_head = framebuffer.buffer@;
        if state.is_selectrix(i) {
            if state.mode == Mode::MoveSelectrix {
                let pos = state.positions[i];
                let inter_pos = state.intra_cell_positions[i];

                let appearance = state.appearances[i];
                appearance.render_intra_positioned(framebuffer, pos, inter_pos);
            }
        } else if state.entities[i] & (COMPONENT_POSITION | COMPONENT_APPEARANCE
            | COMPONENT_INTRA_CELL_POSITION) == (COMPONENT_POSITION | COMPONENT_APPEARANCE
            | COMPONENT_INTRA_CELL_POSITION) {
            let pos = state.positions[i];
            let inter_pos = state.intra_cell_positions[i];

            let appearance = state.appearances[i];
            appearance.render_intra_positioned(framebuffer, pos, inter_pos);
        } else if state.entities[i] & (COMPONENT_POSITION | COMPONENT_APPEARANCE)
            == (COMPONENT_POSITION | COMPONENT_APPEARANCE) {
            let pos = state.positions[i];

            let appearance = state.appearances[i];
            appearance.render_positioned(framebuffer, pos);
        }
        proof {
            assert(framebuffer.buffer@ == render_entity(fb_head, gs2, i as int));
        }
        i = i + 1;
    }

    // The HUD placeholder over the reserved right-hand strip.
    framebuffer.draw_rect(HUD_LEFT_EDGE, 0, HUD_WIDTH, SCREEN_HEIGHT, HUD_COLOUR);
}

} // verus!
