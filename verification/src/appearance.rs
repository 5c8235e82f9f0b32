//! Per-entity visual descriptors and the logic that maps a board cell
//! (plus an optional intra-cell slot) to pixels and issues the draws.

use vstd::prelude::*;

use crate::board::Position;
use crate::circle::spec_draw_circle;
use crate::constants::CELL_DIAMETER;
use crate::constants::CELL_HEIGHT;
use crate::constants::CELL_WIDTH;
use crate::framebuffer::Framebuffer;
use crate::framebuffer::spec_fill_region;

verus! {

/// `a + b` capped at `usize::MAX`.
pub open spec fn sat_add(a: int, b: int) -> int {
    if a + b > usize::MAX {
        usize::MAX as int
    } else {
        a + b
    }
}

/// `a - b` floored at zero.
pub open spec fn sat_sub(a: int, b: int) -> int {
    if a - b < 0 {
        0
    } else {
        a - b
    }
}

/// `value` displaced by a signed offset, saturating at both ends of the
/// `usize` range.
pub open spec fn spec_offset_by(value: int, offset: int) -> int {
    if offset > 0 {
        sat_add(value, offset)
    } else {
        sat_sub(value, 0 - offset)
    }
}

/// `value` displaced by `offset`: added when positive, subtracted in
/// magnitude when negative, saturating in both directions.
pub fn offset_by(value: usize, offset: isize) -> (r: usize)
    ensures
        r as int == spec_offset_by(value as int, offset as int),
{
    if offset > 0 {
        value.saturating_add(offset as usize)
    } else if offset == isize::MIN {
        value.saturating_sub(isize::MAX as usize).saturating_sub(1)
    } else {
        value.saturating_sub((-offset) as usize)
    }
}

/// The leftmost pixel column of board column `x`: one gridline pixel is
/// reserved left of every cell.
pub open spec fn spec_cell_x_to_px_x(x: int) -> int {
    x * (CELL_WIDTH + 1) + 1
}

/// The topmost pixel row of board row `y`: one gridline pixel is reserved
/// above every cell.
pub open spec fn spec_cell_y_to_px_y(y: int) -> int {
    y * (CELL_HEIGHT + 1) + 1
}

pub fn cell_x_to_px_x(x: usize) -> (r: usize)
    requires
        x * (CELL_WIDTH + 1) + 1 <= usize::MAX,
    ensures
        r as int == spec_cell_x_to_px_x(x as int),
{
    x * (CELL_WIDTH + 1) + 1
}

pub fn cell_y_to_px_y(y: usize) -> (r: usize)
    requires
        y * (CELL_HEIGHT + 1) + 1 <= usize::MAX,
    ensures
        r as int == spec_cell_y_to_px_y(y as int),
{
    y * (CELL_HEIGHT + 1) + 1
}

/// The visual variants an entity can take.
#[derive(Clone, Copy, PartialEq, Eq, Structural)]
pub enum Shape {
    FullCell,
    Player,
    DeadOrb0,
    Blob0,
}

impl Default for Shape {
    fn default() -> (s: Shape)
        ensures
            s == Shape::FullCell,
    {
        Shape::FullCell
    }
}

/// A sub-slot of a 2 x 2 partition of one cell.
#[derive(Clone, Copy, PartialEq, Eq, Structural)]
pub enum _2by2 {
    _0_0,
    _0_1,
    _1_0,
    _1_1,
}

/// A sub-slot of a 3 x 3 partition of one cell.
#[derive(Clone, Copy, PartialEq, Eq, Structural)]
pub enum _3by3 {
    _0_0,
    _0_1,
    _0_2,
    _1_0,
    _1_1,
    _1_2,
    _2_0,
    _2_1,
    _2_2,
}

/// A sub-grid slot inside one board cell, on either a 2 x 2 or a 3 x 3
/// partition, letting several entities render as distinct points in one
/// cell.
#[derive(Clone, Copy, PartialEq, Eq, Structural)]
pub enum IntraCellPosition {
    Four(_2by2),
    Nine(_3by3),
}

/// The pixel offset within a cell of an intra-cell slot: slots are evenly
/// spaced, centred in their sub-cells.
pub open spec fn spec_intra_offset(p: IntraCellPosition) -> (int, int) {
    let w = CELL_WIDTH as int;
    let h = CELL_HEIGHT as int;
    match p {
        IntraCellPosition::Four(pos) => {
            let xy = match pos {
                _2by2::_0_0 => (0int, 0int),
                _2by2::_1_0 => (w / 2, 0int),
                _2by2::_0_1 => (0int, h / 2),
                _2by2::_1_1 => (w / 2, h / 2),
            };
            (xy.0 + w / 4, xy.1 + h / 4)
        },
        IntraCellPosition::Nine(pos) => {
            let xy = match pos {
                _3by3::_0_0 => (0int, 0int),
                _3by3::_1_0 => (w / 3, 0int),
                _3by3::_2_0 => (w * 2 / 3, 0int),
                _3by3::_0_1 => (0int, h / 3),
                _3by3::_1_1 => (w / 3, h / 3),
                _3by3::_2_1 => (w * 2 / 3, h / 3),
                _3by3::_0_2 => (0int, h * 2 / 3),
                _3by3::_1_2 => (w / 3, h * 2 / 3),
                _3by3::_2_2 => (w * 2 / 3, h * 2 / 3),
            };
            (xy.0 + w / 6, xy.1 + h / 6)
        },
    }
}

/// The slot one step left of `p`, stopping at the sub-grid edge.
pub open spec fn spec_intra_left(p: IntraCellPosition) -> IntraCellPosition {
    match p {
        IntraCellPosition::Four(pos) => IntraCellPosition::Four(
            match pos {
                _2by2::_1_0 => _2by2::_0_0,
                _2by2::_1_1 => _2by2::_0_1,
                other => other,
            },
        ),
        IntraCellPosition::Nine(pos) => IntraCellPosition::Nine(
            match pos {
                _3by3::_1_0 => _3by3::_0_0,
                _3by3::_1_1 => _3by3::_0_1,
                _3by3::_1_2 => _3by3::_0_2,
                _3by3::_2_0 => _3by3::_1_0,
                _3by3::_2_1 => _3by3::_1_1,
                _3by3::_2_2 => _3by3::_1_2,
                other => other,
            },
        ),
    }
}

/// The slot one step right of `p`, stopping at the sub-grid edge.
pub open spec fn spec_intra_right(p: IntraCellPosition) -> IntraCellPosition {
    match p {
        IntraCellPosition::Four(pos) => IntraCellPosition::Four(
            match pos {
                _2by2::_0_0 => _2by2::_1_0,
                _2by2::_0_1 => _2by2::_1_1,
                other => other,
            },
        ),
        IntraCellPosition::Nine(pos) => IntraCellPosition::Nine(
            match pos {
                _3by3::_0_0 => _3by3::_1_0,
                _3by3::_0_1 => _3by3::_1_1,
                _3by3::_0_2 => _3by3::_1_2,
                _3by3::_1_0 => _3by3::_2_0,
                _3by3::_1_1 => _3by3::_2_1,
                _3by3::_1_2 => _3by3::_2_2,
                other => other,
            },
        ),
    }
}

/// The slot one step up from `p`, stopping at the sub-grid edge.
pub open spec fn spec_intra_up(p: IntraCellPosition) -> IntraCellPosition {
    match p {
        IntraCellPosition::Four(pos) => IntraCellPosition::Four(
            match pos {
                _2by2::_0_1 => _2by2::_0_0,
                _2by2::_1_1 => _2by2::_1_0,
                other => other,
            },
        ),
        IntraCellPosition::Nine(pos) => IntraCellPosition::Nine(
            match pos {
                _3by3::_0_1 => _3by3::_0_0,
                _3by3::_1_1 => _3by3::_1_0,
                _3by3::_2_1 => _3by3::_2_0,
                _3by3::_0_2 => _3by3::_0_1,
                _3by3::_1_2 => _3by3::_1_1,
                _3by3::_2_2 => _3by3::_2_1,
                other => other,
            },
        ),
    }
}

/// The slot one step down from `p`, stopping at the sub-grid edge.
pub open spec fn spec_intra_down(p: IntraCellPosition) -> IntraCellPosition {
    match p {
        IntraCellPosition::Four(pos) => IntraCellPosition::Four(
            match pos {
                _2by2::_0_0 => _2by2::_0_1,
                _2by2::_1_0 => _2by2::_1_1,
                other => other,
            },
        ),
        IntraCellPosition::Nine(pos) => IntraCellPosition::Nine(
            match pos {
                _3by3::_0_0 => _3by3::_0_1,
                _3by3::_1_0 => _3by3::_1_1,
                _3by3::_2_0 => _3by3::_2_1,
                _3by3::_0_1 => _3by3::_0_2,
                _3by3::_1_1 => _3by3::_1_2,
                _3by3::_2_1 => _3by3::_2_2,
                other => other,
            },
        ),
    }
}

impl IntraCellPosition {
    /// The pixel offset of this slot within its cell.
    pub fn get_offset(&self) -> (r: (isize, isize))
        ensures
            (r.0 as int, r.1 as int) == spec_intra_offset(*self),
    {
        let w = CELL_WIDTH as isize;
        let h = CELL_HEIGHT as isize;
        match *self {
            IntraCellPosition::Four(pos) => {
                let xy = match pos {
                    _2by2::_0_0 => (0isize, 0isize),
                    _2by2::_1_0 => (w / 2, 0isize),
                    _2by2::_0_1 => (0isize, h / 2),
                    _2by2::_1_1 => (w / 2, h / 2),
                };
                (xy.0 + w / 4, xy.1 + h / 4)
            },
            IntraCellPosition::Nine(pos) => {
                let xy = match pos {
                    _3by3::_0_0 => (0isize, 0isize),
                    _3by3::_1_0 => (w / 3, 0isize),
                    _3by3::_2_0 => (w * 2 / 3, 0isize),
                    _3by3::_0_1 => (0isize, h / 3),
                    _3by3::_1_1 => (w / 3, h / 3),
                    _3by3::_2_1 => (w * 2 / 3, h / 3),
                    _3by3::_0_2 => (0isize, h * 2 / 3),
                    _3by3::_1_2 => (w / 3, h * 2 / 3),
                    _3by3::_2_2 => (w * 2 / 3, h * 2 / 3),
                };
                (xy.0 + w / 6, xy.1 + h / 6)
            },
        }
    }

    /// One slot to the left, stopping at the sub-grid edge.
    pub fn left(&self) -> (r: IntraCellPosition)
        ensures
            r == spec_intra_left(*self),
    {
        match *self {
            IntraCellPosition::Four(pos) => IntraCellPosition::Four(
                match pos {
                    _2by2::_1_0 => _2by2::_0_0,
                    _2by2::_1_1 => _2by2::_0_1,
                    other => other,
                },
            ),
            IntraCellPosition::Nine(pos) => IntraCellPosition::Nine(
                match pos {
                    _3by3::_1_0 => _3by3::_0_0,
                    _3by3::_1_1 => _3by3::_0_1,
                    _3by3::_1_2 => _3by3::_0_2,
                    _3by3::_2_0 => _3by3::_1_0,
                    _3by3::_2_1 => _3by3::_1_1,
                    _3by3::_2_2 => _3by3::_1_2,
                    other => other,
                },
            ),
        }
    }

    /// One slot to the right, stopping at the sub-grid edge.
    pub fn right(&self) -> (r: IntraCellPosition)
        ensures
            r == spec_intra_right(*self),
    {
        match *self {
            IntraCellPosition::Four(pos) => IntraCellPosition::Four(
                match pos {
                    _2by2::_0_0 => _2by2::_1_0,
                    _2by2::_0_1 => _2by2::_1_1,
                    other => other,
                },
            ),
            IntraCellPosition::Nine(pos) => IntraCellPosition::Nine(
                match pos {
                    _3by3::_0_0 => _3by3::_1_0,
                    _3by3::_0_1 => _3by3::_1_1,
                    _3by3::_0_2 => _3by3::_1_2,
                    _3by3::_1_0 => _3by3::_2_0,
                    _3by3::_1_1 => _3by3::_2_1,
                    _3by3::_1_2 => _3by3::_2_2,
                    other => other,
                },
            ),
        }
    }

    /// One slot up, stopping at the sub-grid edge.
    pub fn up(&self) -> (r: IntraCellPosition)
        ensures
            r == spec_intra_up(*self),
    {
        match *self {
            IntraCellPosition::Four(pos) => IntraCellPosition::Four(
                match pos {
                    _2by2::_0_1 => _2by2::_0_0,
                    _2by2::_1_1 => _2by2::_1_0,
                    other => other,
                },
            ),
            IntraCellPosition::Nine(pos) => IntraCellPosition::Nine(
                match pos {
                    _3by3::_0_1 => _3by3::_0_0,
                    _3by3::_1_1 => _3by3::_1_0,
                    _3by3::_2_1 => _3by3::_2_0,
                    _3by3::_0_2 => _3by3::_0_1,
                    _3by3::_1_2 => _3by3::_1_1,
                    _3by3::_2_2 => _3by3::_2_1,
                    other => other,
                },
            ),
        }
    }

    /// One slot down, stopping at the sub-grid edge.
    pub fn down(&self) -> (r: IntraCellPosition)
        ensures
            r == spec_intra_down(*self),
    {
        match *self {
            IntraCellPosition::Four(pos) => IntraCellPosition::Four(
                match pos {
                    _2by2::_0_0 => _2by2::_0_1,
                    _2by2::_1_0 => _2by2::_1_1,
                    other => other,
                },
            ),
            IntraCellPosition::Nine(pos) => IntraCellPosition::Nine(
                match pos {
                    _3by3::_0_0 => _3by3::_0_1,
                    _3by3::_1_0 => _3by3::_1_1,
                    _3by3::_2_0 => _3by3::_2_1,
                    _3by3::_0_1 => _3by3::_0_2,
                    _3by3::_1_1 => _3by3::_1_2,
                    _3by3::_2_1 => _3by3::_2_2,
                    other => other,
                },
            ),
        }
    }
}

/// An entity's visual descriptor: a packed colour, a shape variant and a
/// sub-pixel slide offset used to animate one-cell moves.
#[derive(Clone, Copy)]
pub struct Appearance {
    pub colour: u32,
    pub shape: Shape,
    pub offset: (isize, isize),
}

impl Default for Appearance {
    fn default() -> (a: Appearance)
        ensures
            a == (Appearance { colour: 0, shape: Shape::FullCell, offset: (0, 0) }),
    {
        Appearance { colour: 0, shape: Shape::FullCell, offset: (0, 0) }
    }
}

/// Whether the appearance has a slide offset still to play out.
pub open spec fn spec_is_offset(a: Appearance) -> bool {
    a.offset.0 != 0 || a.offset.1 != 0
}

/// One offset component moved `step` toward zero, clamped so it cannot
/// cross zero.
pub open spec fn step_toward_zero(v: int, step: int) -> int {
    if v > 0 {
        if v - step < 0 {
            0
        } else {
            v - step
        }
    } else if v < 0 {
        if v + step > 0 {
            0
        } else {
            v + step
        }
    } else {
        0
    }
}

/// The buffer after this appearance is drawn for the cell `pos` displaced
/// by the pixel offset `off`: one full-cell rectangle, an inset rectangle
/// for the player, one anti-aliased circle for an orb, or two for a blob.
pub open spec fn spec_render_at_offset(
    buf: Seq<u32>,
    app: Appearance,
    pos: Position,
    off: (int, int),
) -> Seq<u32> {
    let px = spec_offset_by(spec_cell_x_to_px_x(pos.0 as int), off.0);
    let py = spec_offset_by(spec_cell_y_to_px_y(pos.1 as int), off.1);
    match app.shape {
        Shape::FullCell => spec_fill_region(buf, px, px + CELL_WIDTH, py, py + CELL_HEIGHT,
            app.colour),
        Shape::Player => spec_fill_region(
            buf,
            sat_add(px, 4),
            sat_add(px, 4) + (CELL_WIDTH - 8),
            sat_add(py, 4),
            sat_add(py, 4) + (CELL_HEIGHT - 8),
            app.colour,
        ),
        Shape::DeadOrb0 => spec_draw_circle(buf, px, py, CELL_DIAMETER as int / 9, app.colour),
        Shape::Blob0 => spec_draw_circle(
            spec_draw_circle(
                buf,
                sat_sub(px, CELL_WIDTH as int / 9),
                sat_sub(py, CELL_HEIGHT as int / 9),
                CELL_DIAMETER as int / 9,
                app.colour,
            ),
            sat_add(px, CELL_WIDTH as int / 9),
            sat_add(py, CELL_HEIGHT as int / 9),
            CELL_DIAMETER as int / 9,
            app.colour,
        ),
    }
}

impl Appearance {
    /// Draws this appearance at `pos` displaced by the slot offset of
    /// `intra_pos`.
    pub fn render_intra_positioned(
        &self,
        framebuffer: &mut Framebuffer,
        pos: Position,
        intra_pos: IntraCellPosition,
    )
        ensures
            final(framebuffer).buffer@ == spec_render_at_offset(
                old(framebuffer).buffer@,
                *self,
                pos,
                spec_intra_offset(intra_pos),
            ),
    {
        self.render_positioned_at_offset(framebuffer, pos, intra_pos.get_offset());
    }

    /// Draws this appearance at `pos` displaced by its own slide offset.
    pub fn render_positioned(&self, framebuffer: &mut Framebuffer, pos: Position)
        ensures
            final(framebuffer).buffer@ == spec_render_at_offset(
                old(framebuffer).buffer@,
                *self,
                pos,
                (self.offset.0 as int, self.offset.1 as int),
            ),
    {
        self.render_positioned_at_offset(framebuffer, pos, self.offset);
    }

    /// Draws this appearance at `pos` displaced by the pixel offset
    /// `offset`.
    pub fn render_positioned_at_offset(
        &self,
        framebuffer: &mut Framebuffer,
        pos: Position,
        offset: (isize, isize),
    )
        ensures
            final(framebuffer).buffer@ == spec_render_at_offset(
                old(framebuffer).buffer@,
                *self,
                pos,
                (offset.0 as int, offset.1 as int),
            ),
    {
        let (x, y) = pos;
        let (x_off, y_off) = offset;
        let px_x = offset_by(cell_x_to_px_x(x as usize), x_off);
        let px_y = offset_by(cell_y_to_px_y(y as usize), y_off);

        let colour = self.colour;

        match self.shape {
            Shape::FullCell => {
                framebuffer.draw_rect(px_x, px_y, CELL_WIDTH, CELL_HEIGHT, colour);
            },
            Shape::Player => {
                framebuffer.draw_rect(
                    px_x.saturating_add(4),
                    px_y.saturating_add(4),
                    CELL_WIDTH - 8,
                    CELL_HEIGHT - 8,
                    colour,
                );
            },
            Shape::DeadOrb0 => {
                framebuffer.draw_circle(px_x, px_y, CELL_DIAMETER / 9, colour);
            },
            Shape::Blob0 => {
                framebuffer.draw_circle(
                    px_x.saturating_sub(CELL_WIDTH / 9),
                    px_y.saturating_sub(CELL_HEIGHT / 9),
                    CELL_DIAMETER / 9,
                    colour,
                );
                framebuffer.draw_circle(
                    px_x.saturating_add(CELL_WIDTH / 9),
                    px_y.saturating_add(CELL_HEIGHT / 9),
                    CELL_DIAMETER / 9,
                    colour,
                );
            },
        }
    }

    /// Whether a slide offset is still to play out.
    pub fn is_offset(&self) -> (r: bool)
        ensures
            r == spec_is_offset(*self),
    {
        let (x_off, y_off) = self.offset;

        x_off != 0 || y_off != 0
    }

    /// Moves both offset components `offset` toward zero, clamped so that
    /// neither can cross zero.
    pub fn reduce_offset(&mut self, offset: isize)
        requires
            0 <= offset,
        ensures
            final(self).colour == old(self).colour,
            final(self).shape == old(self).shape,
            final(self).offset.0 as int == step_toward_zero(old(self).offset.0 as int,
                offset as int),
            final(self).offset.1 as int == step_toward_zero(old(self).offset.1 as int,
                offset as int),
    {
        let (x_off, y_off) = self.offset;

        let new_x = if x_off > 0 {
            if offset >= x_off {
                0
            } else {
                x_off - offset
            }
        } else if x_off < 0 {
            let moved = x_off + offset;
            if moved > 0 {
                0
            } else {
                moved
            }
        } else {
            0
        };

        let new_y = if y_off > 0 {
            if offset >= y_off {
                0
            } else {
                y_off - offset
            }
        } else if y_off < 0 {
            let moved = y_off + offset;
            if moved > 0 {
                0
            } else {
                moved
            }
        } else {
            0
        };

        self.offset = (new_x, new_y);
    }
}

/// One offset component after `n` reduction steps.
pub open spec fn decay_iter(v: int, step: int, n: nat) -> int
    decreases n,
{
    if n == 0 {
        v
    } else {
        step_toward_zero(decay_iter(v, step, (n - 1) as nat), step)
    }
}

/// The closed form of offset decay: after `n` steps the offset has moved
/// `n * step` toward zero, clamped at zero, on either side.
pub proof fn lemma_decay_value(v: int, step: int, n: nat)
    requires
        1 <= step,
    ensures
        v >= 0 ==> decay_iter(v, step, n) == (if v - n * step < 0 {
            0
        } else {
            v - n * step
        }),
        v <= 0 ==> decay_iter(v, step, n) == (if v + n * step > 0 {
            0
        } else {
            v + n * step
        }),
    decreases n,
{
    if n > 0 {
        lemma_decay_value(v, step, (n - 1) as nat);
        assert(n * step == (n - 1) * step + step) by (nonlinear_arith);
        assert((n - 1) * step >= 0) by (nonlinear_arith)
            requires
                n >= 1,
                step >= 1;
    } else {
        assert(n * step == 0) by (nonlinear_arith)
            requires
                n == 0;
    }
}

/// Offset decay terminates exactly: from any starting offset, reduction
/// by a positive `step` reaches zero after ceiling of `|v| / step` calls,
/// not before, and the offset never changes sign on the way.
pub proof fn lemma_offset_decay(v: int, step: int, n: nat)
    requires
        1 <= step,
        n == ((vstd::math::abs(v) + step - 1) / step) as nat,
    ensures
        decay_iter(v, step, n) == 0,
        forall|k: nat| k < n ==> decay_iter(v, step, k) != 0,
        forall|k: nat|
            (v >= 0 ==> 0 <= #[trigger] decay_iter(v, step, k) <= v) && (v <= 0 ==> v
                <= decay_iter(v, step, k) <= 0),
{
    let m = vstd::math::abs(v) as int;
    vstd::arithmetic::div_mod::lemma_fundamental_div_mod(m + step - 1, step);
    if m == 0 {
        // A zero offset is already decayed: the step count is zero.
        assert(n == 0) by (nonlinear_arith)
            requires
                n == (step - 1) / step,
                (step - 1) == step * ((step - 1) / step) + (step - 1) % step,
                0 <= (step - 1) % step < step,
                step >= 1;
    }
    assert(n * step >= m) by (nonlinear_arith)
        requires
            step >= 1,
            m >= 0,
            n == (m + step - 1) / step,
            (m + step - 1) == step * ((m + step - 1) / step) + (m + step - 1) % step,
            0 <= (m + step - 1) % step < step;
    lemma_decay_value(v, step, n);
    assert forall|k: nat| k < n implies decay_iter(v, step, k) != 0 by {
        lemma_decay_value(v, step, k);
        assert(k * step < m) by (nonlinear_arith)
            requires
                step >= 1,
                m >= 1,
                k < n,
                n == (m + step - 1) / step,
                (m + step - 1) == step * ((m + step - 1) / step) + (m + step - 1) % step,
                0 <= (m + step - 1) % step < step;
    }
    assert forall|k: nat|
        (v >= 0 ==> 0 <= #[trigger] decay_iter(v, step, k) <= v) && (v <= 0 ==> v <= decay_iter(
            v,
            step,
            k,
        ) <= 0) by {
        lemma_decay_value(v, step, k);
        assert(k * step >= 0) by (nonlinear_arith)
            requires
                step >= 1;
    }
}

} // verus!
