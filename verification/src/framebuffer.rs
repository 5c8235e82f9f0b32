//! The packed-pixel framebuffer and its basic drawing primitives.
//!
//! Every primitive clips: a pixel whose linear index would fall outside the
//! buffer is silently skipped, never written.

use vstd::prelude::*;

use crate::colour::spec_blend;
use crate::constants::SCREEN_HEIGHT;
use crate::constants::SCREEN_WIDTH;

verus! {

pub struct Framebuffer {
    pub buffer: Vec<u32>,
}

/// The linear index of pixel `(x, y)`: `y * SCREEN_WIDTH + x`, saturated
/// at `usize::MAX` (a saturated index lies outside any buffer).
pub open spec fn spec_xy_to_i(x: int, y: int) -> int {
    if y * SCREEN_WIDTH + x > usize::MAX {
        usize::MAX as int
    } else {
        y * SCREEN_WIDTH + x
    }
}

/// The linear index of the pixel in column `cx` of row `cy`.
pub open spec fn pixel_index(cx: int, cy: int) -> int {
    cy * SCREEN_WIDTH + cx
}

/// Whether linear index `i` lies in the pixel region whose columns are
/// `[x0, x1)` and whose rows are `[y0, y1)`.
pub open spec fn region_covers(x0: int, x1: int, y0: int, y1: int, i: int) -> bool {
    exists|cx: int, cy: int|
        x0 <= cx < x1 && y0 <= cy < y1 && i == #[trigger] pixel_index(cx, cy)
}

/// A buffer with the pixels of the region columns `[x0, x1)` by rows
/// `[y0, y1)` set to `colour`, out-of-buffer indices skipped.
pub open spec fn spec_fill_region(
    buf: Seq<u32>,
    x0: int,
    x1: int,
    y0: int,
    y1: int,
    colour: u32,
) -> Seq<u32> {
    Seq::new(buf.len(), |i: int| if region_covers(x0, x1, y0, y1, i) { colour } else { buf[i] })
}

/// The buffer after `colour` is alpha-blended onto pixel `(x, y)`, left
/// unchanged when that pixel lies left of, above, or beyond the buffer.
pub open spec fn spec_blend_at(buf: Seq<u32>, x: int, y: int, colour: u32) -> Seq<u32> {
    if 0 <= x && 0 <= y && pixel_index(x, y) < buf.len() {
        buf.update(pixel_index(x, y), spec_blend(buf[pixel_index(x, y)], colour))
    } else {
        buf
    }
}

impl Framebuffer {
    /// A framebuffer of `SCREEN_WIDTH * SCREEN_HEIGHT` pixels, all zero.
    pub fn new() -> (fb: Framebuffer)
        ensures
            fb.buffer@.len() == SCREEN_WIDTH * SCREEN_HEIGHT,
            forall|i: int| 0 <= i < fb.buffer@.len() ==> fb.buffer@[i] == 0u32,
    {
        let mut buffer: Vec<u32> = Vec::new();
        let mut i: usize = 0;
        while i < SCREEN_WIDTH * SCREEN_HEIGHT
            invariant
                i == buffer@.len(),
                i <= SCREEN_WIDTH * SCREEN_HEIGHT,
                forall|j: int| 0 <= j < i ==> buffer@[j] == 0u32,
            decreases SCREEN_WIDTH * SCREEN_HEIGHT - i,
        {
            buffer.push(0);
            i = i + 1;
        }
        Framebuffer { buffer }
    }

    /// The linear index of pixel `(x, y)`, saturated on overflow.
    pub fn xy_to_i(x: usize, y: usize) -> (i: usize)
        ensures
            i as int == spec_xy_to_i(x as int, y as int),
    {
        match y.checked_mul(SCREEN_WIDTH) {
            Some(row) => row.saturating_add(x),
            None => usize::MAX,
        }
    }

    /// Every pixel set to zero.
    pub fn clear(&mut self)
        ensures
            final(self).buffer@.len() == old(self).buffer@.len(),
            forall|i: int| 0 <= i < final(self).buffer@.len() ==> final(self).buffer@[i] == 0u32,
    {
        let len = self.buffer.len();
        let mut i: usize = 0;
        while i < len
            invariant
                i <= len,
                len == self.buffer@.len(),
                forall|j: int| 0 <= j < i ==> self.buffer@[j] == 0u32,
            decreases len - i,
        {
            self.buffer[i] = 0;
            i = i + 1;
        }
    }

    /// Alpha-composites `colour` over the pixel at linear index `i`; the
    /// single place where channels are unpacked and repacked.
    pub fn blend(&mut self, i: usize, colour: u32)
        requires
            i < old(self).buffer@.len(),
        ensures
            final(self).buffer@ == old(self).buffer@.update(
                i as int,
                spec_blend(old(self).buffer@[i as int], colour),
            ),
    {
        let background = self.buffer[i];
        proof {
            crate::colour::lemma_channel_bounds(colour);
            crate::colour::lemma_channel_bounds(background);
        }
        let ca = (colour & 0xFF_00_00_00) >> 24;
        let alpha = ca + 1;
        let inv_alpha = 256 - ca;
        let sr = colour & 0xFF;
        let sg = (colour & 0xFF_00) >> 8;
        let sb = (colour & 0xFF_00_00) >> 16;
        let dr = background & 0xFF;
        let dg = (background & 0xFF_00) >> 8;
        let db = (background & 0xFF_00_00) >> 16;
        proof {
            assert(alpha * sr <= 65536 && alpha * sg <= 65536 && alpha * sb <= 65536
                && inv_alpha * dr <= 65536 && inv_alpha * dg <= 65536 && inv_alpha * db <= 65536)
                by (nonlinear_arith)
                requires
                    alpha <= 256,
                    inv_alpha <= 256,
                    sr <= 255,
                    sg <= 255,
                    sb <= 255,
                    dr <= 255,
                    dg <= 255,
                    db <= 255;
        }
        let r = (alpha * sr + inv_alpha * dr) >> 8;
        let g = (alpha * sg + inv_alpha * dg) >> 8;
        let b = (alpha * sb + inv_alpha * db) >> 8;
        proof {
            lemma_shr8_is_div256((alpha * sr + inv_alpha * dr) as u32);
            lemma_shr8_is_div256((alpha * sg + inv_alpha * dg) as u32);
            lemma_shr8_is_div256((alpha * sb + inv_alpha * db) as u32);
        }
        self.buffer[i] = r | (g << 8) | (b << 16) | (0xFFu32 << 24);
    }

    /// Alpha-composites `colour` over the pixel at `(x, y)`; a pixel outside
    /// the buffer is skipped.
    pub fn blend_xy(&mut self, x: usize, y: usize, colour: u32)
        ensures
            final(self).buffer@ == spec_blend_at(old(self).buffer@, x as int, y as int, colour),
    {
        let i = Framebuffer::xy_to_i(x, y);
        if i < self.buffer.len() {
            self.blend(i, colour);
        }
    }

    /// Fills the axis-aligned rectangle `[x, x + width) x [y, y + height)`
    /// with `colour`; any pixel whose linear index falls outside the buffer
    /// is skipped.
    #[verifier::loop_isolation(false)]
    pub fn draw_rect(&mut self, x: usize, y: usize, width: usize, height: usize, colour: u32)
        ensures
            final(self).buffer@ == spec_fill_region(
                old(self).buffer@,
                x as int,
                x + width,
                y as int,
                y + height,
                colour,
            ),
    {
        let len = self.buffer.len();
        // Clip the iteration space: a column at or past `len`, or a row whose
        // first pixel is at or past `len`, can hold no in-buffer pixel.
        let one_past_right_edge = if x.saturating_add(width) < len {
            x.saturating_add(width)
        } else {
            len
        };
        let one_past_bottom_edge = {
            let row_limit = len / SCREEN_WIDTH + 1;
            if y.saturating_add(height) < row_limit {
                y.saturating_add(height)
            } else {
                row_limit
            }
        };

        let ghost buf0 = self.buffer@;
        let mut current_y = y;
        while current_y < one_past_bottom_edge
            invariant
                y <= current_y,
                current_y <= one_past_bottom_edge || current_y == y,
                len == self.buffer@.len(),
                self.buffer@ == spec_fill_region(buf0, x as int, x + width, y as int,
                    current_y as int, colour),
            decreases one_past_bottom_edge - current_y,
        {
            let mut current_x = x;
            while current_x < one_past_right_edge
                invariant
                    x <= current_x,
                    current_x <= one_past_right_edge || current_x == x,
                    current_y < one_past_bottom_edge,
                    len == self.buffer@.len(),
                    self.buffer@ == spec_fill_region(
                        spec_fill_region(buf0, x as int, x + width, y as int, current_y as int,
                            colour),
                        x as int,
                        current_x as int,
                        current_y as int,
                        current_y + 1,
                        colour,
                    ),
                decreases one_past_right_edge - current_x,
            {
                let i = Framebuffer::xy_to_i(current_x, current_y);
                let ghost before = self.buffer@;
                if i < len {
                    self.buffer[i] = colour;
                }
                proof {
                    lemma_fill_region_extend_col(before, buf0, x as int, x + width, y as int,
                        current_y as int, current_x as int, colour, self.buffer@);
                }
                current_x = current_x + 1;
            }
            proof {
                lemma_fill_region_row_done(buf0, x as int, x + width, current_x as int, y as int,
                    current_y as int, colour, len as int, self.buffer@);
            }
            current_y = current_y + 1;
        }
        proof {
            lemma_fill_region_rows_done(buf0, x as int, x + width, y as int, current_y as int,
                y + height, colour, len as int, self.buffer@);
        }
    }
}

/// Shifting an unsigned word right by 8 divides it by 256.
proof fn lemma_shr8_is_div256(x: u32)
    ensures
        (x >> 8) == x / 256,
{
    assert((x >> 8) == x / 256) by (bit_vector);
}

/// Appending the single pixel `(cx, cy)` to a partly filled row extends the
/// filled region by exactly that pixel.
proof fn lemma_fill_region_extend_col(
    before: Seq<u32>,
    buf0: Seq<u32>,
    x0: int,
    x1: int,
    y0: int,
    cy: int,
    cx: int,
    colour: u32,
    after: Seq<u32>,
)
    requires
        before.len() <= usize::MAX,
        x0 <= cx,
        y0 <= cy,
        before == spec_fill_region(spec_fill_region(buf0, x0, x1, y0, cy, colour), x0, cx, cy,
            cy + 1, colour),
        ({
            let i = spec_xy_to_i(cx, cy);
            if 0 <= i < before.len() {
                after == before.update(i, colour)
            } else {
                after == before
            }
        }),
    ensures
        after == spec_fill_region(spec_fill_region(buf0, x0, x1, y0, cy, colour), x0, cx + 1, cy,
            cy + 1, colour),
{
    let inner = spec_fill_region(buf0, x0, x1, y0, cy, colour);
    let target = spec_fill_region(inner, x0, cx + 1, cy, cy + 1, colour);
    let iw = pixel_index(cx, cy);
    assert forall|i: int| 0 <= i < after.len() implies after[i] == target[i] by {
        if i == iw {
            assert(region_covers(x0, cx + 1, cy, cy + 1, i));
        } else {
            if region_covers(x0, cx + 1, cy, cy + 1, i) {
                let (wx, wy) = choose|wx: int, wy: int|
                    x0 <= wx < cx + 1 && cy <= wy < cy + 1 && i == pixel_index(wx, wy);
                assert(region_covers(x0, cx, cy, cy + 1, i));
            }
        }
    }
    assert(after =~= target);
}

/// Once a row's in-buffer columns are filled, the row counts as fully
/// filled: the omitted columns lie outside the buffer.
proof fn lemma_fill_region_row_done(
    buf0: Seq<u32>,
    x0: int,
    x1: int,
    cx_end: int,
    y0: int,
    cy: int,
    colour: u32,
    len: int,
    after: Seq<u32>,
)
    requires
        len == buf0.len(),
        y0 <= cy,
        0 <= cy,
        0 <= x0,
        cx_end == x1 || (cx_end >= len && cx_end >= x0),
        cx_end <= x1 || cx_end <= x0,
        after == spec_fill_region(spec_fill_region(buf0, x0, x1, y0, cy, colour), x0, cx_end, cy,
            cy + 1, colour),
    ensures
        after == spec_fill_region(buf0, x0, x1, y0, cy + 1, colour),
{
    let target = spec_fill_region(buf0, x0, x1, y0, cy + 1, colour);
    assert forall|i: int| 0 <= i < after.len() implies after[i] == target[i] by {
        if region_covers(x0, x1, y0, cy + 1, i) {
            let (wx, wy) = choose|wx: int, wy: int|
                x0 <= wx < x1 && y0 <= wy < cy + 1 && i == pixel_index(wx, wy);
            if wy < cy {
                assert(region_covers(x0, x1, y0, cy, i));
            } else {
                if wx < cx_end {
                    assert(region_covers(x0, cx_end, cy, cy + 1, i));
                } else {
                    // The omitted column lies outside the buffer.
                    assert(i >= wx >= len) by (nonlinear_arith)
                        requires
                            i == wy * SCREEN_WIDTH + wx,
                            wy >= 0,
                            wx >= len,
                            i < len;
                }
            }
        } else {
            if region_covers(x0, x1, y0, cy, i) {
                let (wx, wy) = choose|wx: int, wy: int|
                    x0 <= wx < x1 && y0 <= wy < cy && i == pixel_index(wx, wy);
                assert(region_covers(x0, x1, y0, cy + 1, i));
            }
            if region_covers(x0, cx_end, cy, cy + 1, i) {
                let (wx, wy) = choose|wx: int, wy: int|
                    x0 <= wx < cx_end && cy <= wy < cy + 1 && i == pixel_index(wx, wy);
                assert(region_covers(x0, x1, y0, cy + 1, i));
            }
        }
    }
    assert(after =~= target);
}

/// Once the in-buffer rows are filled, the whole rectangle counts as
/// filled: the omitted rows lie outside the buffer.
proof fn lemma_fill_region_rows_done(
    buf0: Seq<u32>,
    x0: int,
    x1: int,
    y0: int,
    cy_end: int,
    y1: int,
    colour: u32,
    len: int,
    after: Seq<u32>,
)
    requires
        len == buf0.len(),
        0 <= x0,
        0 <= y0,
        y0 <= cy_end || cy_end == y0,
        cy_end == y1 || (cy_end * SCREEN_WIDTH >= len && cy_end >= y0),
        cy_end <= y1 || cy_end <= y0,
        after == spec_fill_region(buf0, x0, x1, y0, cy_end, colour),
    ensures
        after == spec_fill_region(buf0, x0, x1, y0, y1, colour),
{
    let target = spec_fill_region(buf0, x0, x1, y0, y1, colour);
    assert forall|i: int| 0 <= i < after.len() implies after[i] == target[i] by {
        if region_covers(x0, x1, y0, y1, i) {
            let (wx, wy) = choose|wx: int, wy: int|
                x0 <= wx < x1 && y0 <= wy < y1 && i == pixel_index(wx, wy);
            if wy < cy_end {
                assert(region_covers(x0, x1, y0, cy_end, i));
            } else {
                assert(i >= len) by (nonlinear_arith)
                    requires
                        i == wy * SCREEN_WIDTH + wx,
                        wx >= 0,
                        wy >= cy_end,
                        cy_end >= 0,
                        cy_end * SCREEN_WIDTH >= len,
                        i < len;
            }
        } else {
            if region_covers(x0, x1, y0, cy_end, i) {
                let (wx, wy) = choose|wx: int, wy: int|
                    x0 <= wx < x1 && y0 <= wy < cy_end && i == pixel_index(wx, wy);
                assert(region_covers(x0, x1, y0, y1, i));
            }
        }
    }
    assert(after =~= target);
}

} // verus!
