//! The entity/component store and the whole-simulation state.
//!
//! Entities are fixed array slots: the slot index is the entity's identity
//! for the life of the state. A per-entity bitmask records which component
//! arrays hold meaningful data for it; mutating a component never sets its
//! bit, and callers must keep mask and data consistent.

use vstd::prelude::*;

use crate::appearance::Appearance;
use crate::appearance::IntraCellPosition;
use crate::appearance::Shape;
use crate::appearance::_2by2;
use crate::appearance::_3by3;
use crate::board::Position;
use crate::board::get_board_xy;
use crate::colour::BLUE;
use crate::colour::FLOOR;
use crate::colour::RED;
use crate::colour::YELLOW;
use crate::framebuffer::Framebuffer;
use crate::input::Input;

verus! {

/// A bitmask over the component vocabulary.
pub type ComponentMask = u16;

pub const COMPONENT_POSITION: ComponentMask = 0x1;

pub const COMPONENT_APPEARANCE: ComponentMask = 0x2;

pub const COMPONENT_PLAYER_CONTROLLED: ComponentMask = 0x4;

pub const COMPONENT_INTRA_CELL_POSITION: ComponentMask = 0x8;

/// The composite mask of a controllable, visible, positioned entity.
pub const COMPONENT_PLAYER: ComponentMask = COMPONENT_POSITION | COMPONENT_APPEARANCE
    | COMPONENT_PLAYER_CONTROLLED;

/// Whether every component bit of `bits` is set in `mask`.
pub open spec fn mask_has(mask: ComponentMask, bits: ComponentMask) -> bool {
    mask & bits == bits
}

/// The mode of the whole simulation: exactly one is active at a time.
#[derive(Clone, Copy, PartialEq, Eq, Structural)]
pub enum Mode {
    MoveAvatar,
    MoveSelectrix,
}

/// Which player-controlled role an entity plays.
#[derive(Clone, Copy, PartialEq, Eq, Structural)]
pub enum PlayerType {
    Avatar,
    Selectrix,
}

/// Number of entity slots; the slot index is the entity id.
pub const ENTITY_COUNT: usize = 256;

/// Fixed-capacity parallel component arrays indexed by entity id, with the
/// mode of the simulation and the id of the selectrix entity.
pub struct GameState {
    pub entities: Vec<ComponentMask>,
    pub positions: Vec<Position>,
    pub appearances: Vec<Appearance>,
    pub intra_cell_positions: Vec<IntraCellPosition>,
    pub player_types: Vec<PlayerType>,
    pub mode: Mode,
    pub selectrix_id: usize,
}

/// The mathematical value of a `GameState`.
pub struct GameStateView {
    pub entities: Seq<ComponentMask>,
    pub positions: Seq<Position>,
    pub appearances: Seq<Appearance>,
    pub intra_cell_positions: Seq<IntraCellPosition>,
    pub player_types: Seq<PlayerType>,
    pub mode: Mode,
    pub selectrix_id: int,
}

impl View for GameState {
    type V = GameStateView;

    open spec fn view(&self) -> GameStateView {
        GameStateView {
            entities: self.entities@,
            positions: self.positions@,
            appearances: self.appearances@,
            intra_cell_positions: self.intra_cell_positions@,
            player_types: self.player_types@,
            mode: self.mode,
            selectrix_id: self.selectrix_id as int,
        }
    }
}

impl GameStateView {
    /// Every parallel array has one slot per entity, and the selectrix id
    /// names a slot.
    pub open spec fn wf(self) -> bool {
        &&& self.entities.len() == ENTITY_COUNT
        &&& self.positions.len() == ENTITY_COUNT
        &&& self.appearances.len() == ENTITY_COUNT
        &&& self.intra_cell_positions.len() == ENTITY_COUNT
        &&& self.player_types.len() == ENTITY_COUNT
        &&& 0 <= self.selectrix_id < ENTITY_COUNT
    }
}

/// Whether entity `id` is the player's avatar: fully player-tagged and of
/// the avatar role.
pub open spec fn spec_is_avatar(gs: GameStateView, id: int) -> bool {
    mask_has(gs.entities[id], COMPONENT_PLAYER) && gs.player_types[id] == PlayerType::Avatar
}

/// Whether entity `id` is the selectrix cursor: fully player-tagged with an
/// intra-cell slot, and of the selectrix role.
pub open spec fn spec_is_selectrix(gs: GameStateView, id: int) -> bool {
    mask_has(gs.entities[id], COMPONENT_PLAYER | COMPONENT_INTRA_CELL_POSITION)
        && gs.player_types[id] == PlayerType::Selectrix
}

/// The entity id of the avatar in the seeded world: the slot after the
/// board's floor tiles.
pub const AVATAR_ID: usize = 36;

/// The entity id of the selectrix in the seeded world.
pub const SELECTRIX_ID: usize = 50;

/// The component mask entity `i` is seeded with: floor tiles on every
/// board cell, then the avatar, nine orb pips sharing one cell, four blob
/// quarters sharing another, and the hidden selectrix.
pub open spec fn init_mask(i: int) -> ComponentMask {
    if i < 36 {
        COMPONENT_POSITION | COMPONENT_APPEARANCE
    } else if i == 36 {
        COMPONENT_PLAYER
    } else if i < 50 {
        COMPONENT_POSITION | COMPONENT_APPEARANCE | COMPONENT_INTRA_CELL_POSITION
    } else if i == 50 {
        COMPONENT_POSITION | COMPONENT_PLAYER_CONTROLLED | COMPONENT_INTRA_CELL_POSITION
    } else {
        0
    }
}

/// The board cell entity `i` is seeded at.
pub open spec fn init_position(i: int) -> Position {
    if i < 36 {
        ((i % 6) as u8, (i / 6) as u8)
    } else if 37 <= i < 46 {
        (3u8, 4u8)
    } else if 46 <= i < 50 {
        (4u8, 3u8)
    } else {
        (0u8, 0u8)
    }
}

/// The appearance entity `i` is seeded with.
pub open spec fn init_appearance(i: int) -> Appearance {
    if i < 36 {
        Appearance { colour: FLOOR, shape: Shape::FullCell, offset: (0, 0) }
    } else if i == 36 {
        Appearance { colour: BLUE, shape: Shape::Player, offset: (0, 0) }
    } else if i < 46 {
        Appearance { colour: RED, shape: Shape::DeadOrb0, offset: (0, 0) }
    } else if i < 50 {
        Appearance { colour: RED, shape: Shape::Blob0, offset: (0, 0) }
    } else if i == 50 {
        Appearance { colour: YELLOW, shape: Shape::DeadOrb0, offset: (0, 0) }
    } else {
        Appearance { colour: 0, shape: Shape::FullCell, offset: (0, 0) }
    }
}

/// The intra-cell slot entity `i` is seeded with: the nine orb pips walk
/// the 3 x 3 sub-grid column by column, the four blob quarters the 2 x 2.
pub open spec fn init_intra(i: int) -> IntraCellPosition {
    if i == 37 {
        IntraCellPosition::Nine(_3by3::_0_0)
    } else if i == 38 {
        IntraCellPosition::Nine(_3by3::_0_1)
    } else if i == 39 {
        IntraCellPosition::Nine(_3by3::_0_2)
    } else if i == 40 {
        IntraCellPosition::Nine(_3by3::_1_0)
    } else if i == 41 {
        IntraCellPosition::Nine(_3by3::_1_1)
    } else if i == 42 {
        IntraCellPosition::Nine(_3by3::_1_2)
    } else if i == 43 {
        IntraCellPosition::Nine(_3by3::_2_0)
    } else if i == 44 {
        IntraCellPosition::Nine(_3by3::_2_1)
    } else if i == 45 {
        IntraCellPosition::Nine(_3by3::_2_2)
    } else if i == 47 {
        IntraCellPosition::Four(_2by2::_1_0)
    } else if i == 48 {
        IntraCellPosition::Four(_2by2::_0_1)
    } else if i == 49 {
        IntraCellPosition::Four(_2by2::_1_1)
    } else {
        IntraCellPosition::Four(_2by2::_0_0)
    }
}

/// The player role entity `i` is seeded with.
pub open spec fn init_player_type(i: int) -> PlayerType {
    if i == 50 {
        PlayerType::Selectrix
    } else {
        PlayerType::Avatar
    }
}

/// The deterministic world layout the store is seeded with.
pub open spec fn initial_game_state() -> GameStateView {
    GameStateView {
        entities: Seq::new(ENTITY_COUNT as nat, |i: int| init_mask(i)),
        positions: Seq::new(ENTITY_COUNT as nat, |i: int| init_position(i)),
        appearances: Seq::new(ENTITY_COUNT as nat, |i: int| init_appearance(i)),
        intra_cell_positions: Seq::new(ENTITY_COUNT as nat, |i: int| init_intra(i)),
        player_types: Seq::new(ENTITY_COUNT as nat, |i: int| init_player_type(i)),
        mode: Mode::MoveAvatar,
        selectrix_id: SELECTRIX_ID as int,
    }
}

impl GameState {
    /// Whether entity `id` is the player's avatar.
    pub fn is_avatar(&self, id: usize) -> (r: bool)
        requires
            self@.wf(),
            id < ENTITY_COUNT,
        ensures
            r == spec_is_avatar(self@, id as int),
    {
        (self.entities[id] & COMPONENT_PLAYER == COMPONENT_PLAYER) && self.player_types[id]
            == PlayerType::Avatar
    }

    /// Whether entity `id` is the selectrix cursor.
    pub fn is_selectrix(&self, id: usize) -> (r: bool)
        requires
            self@.wf(),
            id < ENTITY_COUNT,
        ensures
            r == spec_is_selectrix(self@, id as int),
    {
        let sel = COMPONENT_PLAYER | COMPONENT_INTRA_CELL_POSITION;
        (self.entities[id] & sel == sel) && self.player_types[id] == PlayerType::Selectrix
    }

    /// The seeded world: floor tiles on every board cell, the avatar, nine
    /// orb pips on one cell, four blob quarters on another, and the hidden
    /// selectrix, in avatar-movement mode.
    pub fn new() -> (gs: GameState)
        ensures
            gs@ == initial_game_state(),
            gs@.wf(),
    {
        let mut entities: Vec<ComponentMask> = Vec::new();
        let mut positions: Vec<Position> = Vec::new();
        let mut appearances: Vec<Appearance> = Vec::new();
        let mut intra_cell_positions: Vec<IntraCellPosition> = Vec::new();
        let mut player_types: Vec<PlayerType> = Vec::new();

        let mut i: usize = 0;
        while i < ENTITY_COUNT
            invariant
                i <= ENTITY_COUNT,
                entities@.len() == i,
                positions@.len() == i,
                appearances@.len() == i,
                intra_cell_positions@.len() == i,
                player_types@.len() == i,
                forall|j: int| 0 <= j < i ==> entities@[j] == init_mask(j),
                forall|j: int| 0 <= j < i ==> positions@[j] == init_position(j),
                forall|j: int| 0 <= j < i ==> appearances@[j] == init_appearance(j),
                forall|j: int| 0 <= j < i ==> intra_cell_positions@[j] == init_intra(j),
                forall|j: int| 0 <= j < i ==> player_types@[j] == init_player_type(j),
            decreases ENTITY_COUNT - i,
        {
            if i < 36 {
                // One floor tile per board cell.
                let pos = match get_board_xy(i) {
                    Some(pos) => pos,
                    None => (0, 0),
                };
                entities.push(COMPONENT_POSITION | COMPONENT_APPEARANCE);
                positions.push(pos);
                appearances.push(Appearance { colour: FLOOR, shape: Shape::FullCell, offset: (0, 0) });
                intra_cell_positions.push(IntraCellPosition::Four(_2by2::_0_0));
                player_types.push(PlayerType::Avatar);
            } else if i == AVATAR_ID {
                entities.push(COMPONENT_PLAYER);
                positions.push((0, 0));
                appearances.push(Appearance { colour: BLUE, shape: Shape::Player, offset: (0, 0) });
                intra_cell_positions.push(IntraCellPosition::Four(_2by2::_0_0));
                player_types.push(PlayerType::Avatar);
            } else if i < 46 {
                // Nine orb pips sharing cell (3, 4), one per 3 x 3 slot.
                entities.push(
                    COMPONENT_POSITION | COMPONENT_APPEARANCE | COMPONENT_INTRA_CELL_POSITION,
                );
                positions.push((3, 4));
                appearances.push(Appearance { colour: RED, shape: Shape::DeadOrb0, offset: (0, 0) });
                intra_cell_positions.push(
                    match i - 37 {
                        0 => IntraCellPosition::Nine(_3by3::_0_0),
                        1 => IntraCellPosition::Nine(_3by3::_0_1),
                        2 => IntraCellPosition::Nine(_3by3::_0_2),
                        3 => IntraCellPosition::Nine(_3by3::_1_0),
                        4 => IntraCellPosition::Nine(_3by3::_1_1),
                        5 => IntraCellPosition::Nine(_3by3::_1_2),
                        6 => IntraCellPosition::Nine(_3by3::_2_0),
                        7 => IntraCellPosition::Nine(_3by3::_2_1),
                        _ => IntraCellPosition::Nine(_3by3::_2_2),
                    },
                );
                player_types.push(PlayerType::Avatar);
            } else if i < 50 {
                // Four blob quarters sharing cell (4, 3), one per 2 x 2 slot.
                entities.push(
                    COMPONENT_POSITION | COMPONENT_APPEARANCE | COMPONENT_INTRA_CELL_POSITION,
                );
                positions.push((4, 3));
                appearances.push(Appearance { colour: RED, shape: Shape::Blob0, offset: (0, 0) });
                intra_cell_positions.push(
                    match i - 46 {
                        0 => IntraCellPosition::Four(_2by2::_0_0),
                        1 => IntraCellPosition::Four(_2by2::_1_0),
                        2 => IntraCellPosition::Four(_2by2::_0_1),
                        _ => IntraCellPosition::Four(_2by2::_1_1),
                    },
                );
                player_types.push(PlayerType::Avatar);
            } else if i == SELECTRIX_ID {
                // The selectrix starts hidden: no appearance bit until the
                // mode machine turns it on.
                entities.push(
                    COMPONENT_POSITION | COMPONENT_PLAYER_CONTROLLED
                        | COMPONENT_INTRA_CELL_POSITION,
                );
                positions.push((0, 0));
                appearances.push(
                    Appearance { colour: YELLOW, shape: Shape::DeadOrb0, offset: (0, 0) },
                );
                intra_cell_positions.push(IntraCellPosition::Four(_2by2::_0_0));
                player_types.push(PlayerType::Selectrix);
            } else {
                entities.push(0);
                positions.push((0, 0));
                appearances.push(Appearance { colour: 0, shape: Shape::FullCell, offset: (0, 0) });
                intra_cell_positions.push(IntraCellPosition::Four(_2by2::_0_0));
                player_types.push(PlayerType::Avatar);
            }
            i = i + 1;
        }

        let gs = GameState {
            entities,
            positions,
            appearances,
            intra_cell_positions,
            player_types,
            mode: Mode::MoveAvatar,
            selectrix_id: SELECTRIX_ID,
        };
        proof {
            assert(gs@.entities =~= initial_game_state().entities);
            assert(gs@.positions =~= initial_game_state().positions);
            assert(gs@.appearances =~= initial_game_state().appearances);
            assert(gs@.intra_cell_positions =~= initial_game_state().intra_cell_positions);
            assert(gs@.player_types =~= initial_game_state().player_types);
        }
        gs
    }
}

/// The whole simulation state a host threads through the frame loop.
pub struct State {
    pub game_state: GameState,
    pub framebuffer: Framebuffer,
    pub input: Input,
}

impl State {
    /// A fresh simulation: the seeded world, a zeroed framebuffer, and no
    /// buttons held.
    pub fn new() -> (s: State)
        ensures
            s.game_state@ == initial_game_state(),
            s.framebuffer.buffer@.len() == crate::constants::SCREEN_WIDTH
                * crate::constants::SCREEN_HEIGHT,
            forall|i: int|
                0 <= i < s.framebuffer.buffer@.len() ==> s.framebuffer.buffer@[i] == 0u32,
            s.input.gamepad == 0,
            s.input.previous_gamepad == 0,
    {
        let framebuffer = Framebuffer::new();

        State { game_state: GameState::new(), framebuffer, input: Input::new() }
    }
}

} // verus!
