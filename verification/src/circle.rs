//! Midpoint circle rasterizers: a solid filled circle and an anti-aliased
//! ring, both walking one octant of the circle with an integer error term
//! and plotting four symmetric points per step.
//!
//! The contracts state the exact buffer the walk produces, as a recursive
//! trace over the algorithm's state `(x, y)`; the error term is determined
//! by the state, `err == (x + 1)^2 + (y + 1)^2 - r^2`.

use vstd::prelude::*;

use crate::colour::with_alpha;
use crate::framebuffer::Framebuffer;
use crate::framebuffer::pixel_index;
use crate::framebuffer::spec_blend_at;

verus! {

/// The integer error term of the midpoint walk at state `(x, y)`.
pub open spec fn circle_err(r: int, x: int, y: int) -> int {
    (x + 1) * (x + 1) + (y + 1) * (y + 1) - r * r
}

/// The state space the solid-circle walk stays in.
pub open spec fn sc_inv(r: int, x: int, y: int) -> bool {
    &&& 0 <= r
    &&& -r <= x <= 0
    &&& 0 <= y <= r
}

/// The buffer with `colour` stored at pixel `(px, py)`, left unchanged when
/// that pixel lies left of, above, or beyond the buffer.
pub open spec fn store_at(buf: Seq<u32>, px: int, py: int, colour: u32) -> Seq<u32> {
    if 0 <= px && 0 <= py && pixel_index(px, py) < buf.len() {
        buf.update(pixel_index(px, py), colour)
    } else {
        buf
    }
}

/// The four symmetric points of one solid-circle step, stored in quadrant
/// order around the centre `(xm, ym)`.
pub open spec fn sc_plot4(buf: Seq<u32>, xm: int, ym: int, x: int, y: int, colour: u32) -> Seq<
    u32,
> {
    let b1 = store_at(buf, xm - x, ym + y, colour);
    let b2 = store_at(b1, xm - y, ym - x, colour);
    let b3 = store_at(b2, xm + x, ym - y, colour);
    store_at(b3, xm + y, ym + x, colour)
}

/// The state following `(x, y)` in the solid-circle walk.
pub open spec fn sc_next(r: int, x: int, y: int) -> (int, int) {
    let err = circle_err(r, x, y);
    let ystep = err <= y;
    let y2 = if ystep {
        y + 1
    } else {
        y
    };
    let errm = if ystep {
        err + 2 * y2 + 1
    } else {
        err
    };
    let xstep = err > x || errm > y2;
    let x2 = if xstep {
        x + 1
    } else {
        x
    };
    (x2, y2)
}

/// Every solid-circle step moves, and stays in the state space.
pub proof fn lemma_sc_step(r: int, x: int, y: int)
    requires
        sc_inv(r, x, y),
    ensures
        ({
            let (x2, y2) = sc_next(r, x, y);
            &&& x <= x2 <= x + 1
            &&& y <= y2 <= y + 1
            &&& x2 > x || y2 > y
            &&& x2 <= 0 ==> sc_inv(r, x2, y2)
        }),
{
    let err = circle_err(r, x, y);
    if err <= y {
        // A y step implies y < r: at y >= r the error is already above y.
        assert(y < r) by (nonlinear_arith)
            requires
                err == (x + 1) * (x + 1) + (y + 1) * (y + 1) - r * r,
                err <= y,
                -r <= x,
                0 <= y,
                0 <= r;
    }
}

/// The solid-circle walk from state `(x, y)`: plot four points, advance,
/// and continue while `x` is negative.
pub open spec fn sc_trace(
    buf: Seq<u32>,
    xm: int,
    ym: int,
    r: int,
    x: int,
    y: int,
    colour: u32,
) -> Seq<u32>
    decreases 0 - x, r - y,
        when sc_inv(r, x, y)
        via sc_trace_decreases
{
    let buf2 = sc_plot4(buf, xm, ym, x, y, colour);
    let next = sc_next(r, x, y);
    if next.0 < 0 {
        sc_trace(buf2, xm, ym, r, next.0, next.1, colour)
    } else {
        buf2
    }
}

#[via_fn]
proof fn sc_trace_decreases(buf: Seq<u32>, xm: int, ym: int, r: int, x: int, y: int, colour: u32) {
    lemma_sc_step(r, x, y);
}

/// The whole effect of the solid-circle primitive: a no-op when the centre
/// lies nearer an edge than the radius, otherwise the full walk from the
/// leftmost point `(-r, 0)`.
pub open spec fn spec_draw_solid_circle(
    buf: Seq<u32>,
    xm: int,
    ym: int,
    r: int,
    colour: u32,
) -> Seq<u32> {
    if xm < r || ym < r {
        buf
    } else {
        sc_trace(buf, xm, ym, r, -r, 0, colour)
    }
}

impl Framebuffer {
    /// Stores `colour` at the pixel whose column and row are given when in
    /// range (`None` stands for a coordinate that cannot be a `usize`).
    fn store_at_coords(
        &mut self,
        px: Option<usize>,
        py: Option<usize>,
        colour: u32,
        px_i: Ghost<int>,
        py_i: Ghost<int>,
    )
        requires
            match px {
                Some(v) => px_i@ == v as int,
                None => px_i@ < 0 || px_i@ > usize::MAX,
            },
            match py {
                Some(v) => py_i@ == v as int,
                None => py_i@ < 0 || py_i@ > usize::MAX,
            },
        ensures
            final(self).buffer@ == store_at(old(self).buffer@, px_i@, py_i@, colour),
    {
        let len = self.buffer.len();
        if let (Some(a), Some(b)) = (px, py) {
            let i = Framebuffer::xy_to_i(a, b);
            if i < len {
                self.buffer[i] = colour;
            }
        }
    }

    /// Draws a filled circle of `radius` around `(x_mid, y_mid)` by the
    /// integer midpoint walk; a no-op when the centre is nearer an edge
    /// than the radius, and every out-of-buffer pixel is skipped. The
    /// radius bound keeps the squared error term exact in 64 bits.
    #[verifier::loop_isolation(false)]
    pub fn draw_solid_circle(&mut self, x_mid: usize, y_mid: usize, radius: usize, colour: u32)
        requires
            radius <= 0x4000_0000,
        ensures
            final(self).buffer@ == spec_draw_solid_circle(
                old(self).buffer@,
                x_mid as int,
                y_mid as int,
                radius as int,
                colour,
            ),
    {
        if x_mid < radius || y_mid < radius {
            return ;
        }
        let r_i: i64 = radius as i64;
        let mut x: i64 = -r_i;
        let mut y: i64 = 0;
        let mut err: i64 = 2 - 2 * r_i;
        let ghost buf0 = self.buffer@;
        proof {
            assert(2 - 2 * (radius as int) == circle_err(radius as int, -(radius as int), 0))
                by (nonlinear_arith);
        }
        let mut cont = true;
        while cont
            invariant
                cont ==> sc_inv(radius as int, x as int, y as int),
                cont ==> err as int == circle_err(radius as int, x as int, y as int),
                sc_trace(buf0, x_mid as int, y_mid as int, radius as int, -(radius as int), 0,
                    colour) == if cont {
                    sc_trace(self.buffer@, x_mid as int, y_mid as int, radius as int, x as int,
                        y as int, colour)
                } else {
                    self.buffer@
                },
            decreases 1 + r_i - x + r_i - y,
        {
            let ghost buf_head = self.buffer@;
            let ghost xg = x as int;
            let ghost yg = y as int;
            proof {
                lemma_err_bound(radius as int, xg, yg, err as int);
            }
            let nx = (-x) as usize;
            let yy = y as usize;
            // The four symmetric points, in quadrant order.
            self.store_at_coords(x_mid.checked_add(nx), y_mid.checked_add(yy), colour,
                Ghost(x_mid - xg), Ghost(y_mid + yg));
            self.store_at_coords(Some(x_mid - yy), y_mid.checked_add(nx), colour,
                Ghost(x_mid - yg), Ghost(y_mid - xg));
            self.store_at_coords(Some(x_mid - nx), Some(y_mid - yy), colour, Ghost(x_mid + xg),
                Ghost(y_mid - yg));
            self.store_at_coords(x_mid.checked_add(yy), Some(y_mid - nx), colour,
                Ghost(x_mid + yg), Ghost(y_mid + xg));
            assert(self.buffer@ == sc_plot4(buf_head, x_mid as int, y_mid as int, xg, yg, colour));
            proof {
                lemma_sc_step(radius as int, xg, yg);
            }
            let ghost errg = err as int;
            let r_loc = err;
            if r_loc <= y {
                y = y + 1;
                err = err + y * 2 + 1;
                proof {
                    lemma_err_shift_y(radius as int, xg, yg, errg);
                }
            }
            let ghost errm = err as int;
            proof {
                lemma_err_bound(radius as int, xg, y as int, errm);
            }
            if r_loc > x || err > y {
                x = x + 1;
                err = err + x * 2 + 1;
                proof {
                    lemma_err_shift_x(radius as int, xg - 1 + 1, y as int, errm);
                }
            }
            proof {
                assert((x as int, y as int) == sc_next(radius as int, xg, yg));
                assert(sc_trace(buf_head, x_mid as int, y_mid as int, radius as int, xg, yg,
                    colour) == if x < 0 {
                    sc_trace(self.buffer@, x_mid as int, y_mid as int, radius as int, x as int,
                        y as int, colour)
                } else {
                    self.buffer@
                });
            }
            cont = x < 0;
        }
    }
}

/// The error term at any reachable solid-circle state is small enough for
/// 64-bit arithmetic.
proof fn lemma_err_bound(r: int, x: int, y: int, err: int)
    requires
        err == circle_err(r, x, y),
        -r <= x <= 1,
        0 <= y <= r + 1,
        0 <= r <= 0x4000_0000,
    ensures
        -0x2000_0000_0000_0000 < err < 0x2000_0000_0000_0000,
{
    assert(-0x2000_0000_0000_0000 < (x + 1) * (x + 1) + (y + 1) * (y + 1) - r * r
        < 0x2000_0000_0000_0000) by (nonlinear_arith)
        requires
            -r <= x <= 1,
            0 <= y <= r + 1,
            0 <= r <= 0x4000_0000;
}

/// Stepping `y` by one adds `2 * (y + 1) + 1` to the error term.
proof fn lemma_err_shift_y(r: int, x: int, y: int, err: int)
    requires
        err == circle_err(r, x, y),
    ensures
        err + 2 * (y + 1) + 1 == circle_err(r, x, y + 1),
{
    assert((x + 1) * (x + 1) + (y + 1) * (y + 1) - r * r + 2 * (y + 1) + 1
        == (x + 1) * (x + 1) + (y + 2) * (y + 2) - r * r) by (nonlinear_arith);
}

/// Stepping `x` by one adds `2 * (x + 1) + 1` to the error term.
proof fn lemma_err_shift_x(r: int, x: int, y: int, err: int)
    requires
        err == circle_err(r, x, y),
    ensures
        err + 2 * (x + 1) + 1 == circle_err(r, x + 1, y),
{
    assert((x + 1) * (x + 1) + (y + 1) * (y + 1) - r * r + 2 * (x + 1) + 1
        == (x + 2) * (x + 2) + (y + 1) * (y + 1) - r * r) by (nonlinear_arith);
}

/// The signed squared-distance of state `(x, y)` from the circle of radius
/// `r`: negative inside the circle, positive outside.
pub open spec fn aa_d(r: int, x: int, y: int) -> int {
    x * x + y * y - r * r
}

/// The scaling denominator of the anti-aliased walk, `2 * r - 1`.
pub open spec fn aa_diam(r: int) -> int {
    2 * r - 1
}

/// The state space the anti-aliased walk stays in: the walk hugs the
/// circle, staying within one pixel of it on either side.
pub open spec fn aa_inv(r: int, x: int, y: int) -> bool {
    let d = aa_d(r, x, y);
    &&& 1 <= r
    &&& -r <= x <= -1
    &&& 0 <= y <= r
    &&& -(2 * r - 1) <= d <= 2 * r - 1
    &&& d + 2 * y + 1 >= 0
    &&& d + 2 * x + 1 <= 0
}

/// The coverage-derived alpha of the primary ring pixel at `(x, y)`.
pub open spec fn aa_alpha_main(r: int, x: int, y: int) -> int {
    255 * (vstd::math::abs(aa_d(r, x, y)) as int) / aa_diam(r)
}

/// The alpha of the outward neighbour pixel, blended on an `x` step.
pub open spec fn aa_alpha_out(r: int, x: int, y: int) -> int {
    255 * (circle_err(r, x, y) - 2 * x - 1) / aa_diam(r)
}

/// The alpha of the inward neighbour pixel, blended on a `y` step.
pub open spec fn aa_alpha_in(r: int, x: int, y: int) -> int {
    255 * (2 * y + 3 - circle_err(r, x, y)) / aa_diam(r)
}

/// The state following `(x, y)` in the anti-aliased walk.
pub open spec fn aa_next(r: int, x: int, y: int) -> (int, int) {
    let err = circle_err(r, x, y);
    let x2 = if err + y > 0 {
        x + 1
    } else {
        x
    };
    let y2 = if err + x <= 0 {
        y + 1
    } else {
        y
    };
    (x2, y2)
}

/// The four symmetric blends of one step, in quadrant order around the
/// centre `(xm, ym)`; the offsets `(ox, oy)` displace each point outward
/// or inward along its octant.
pub open spec fn aa_blend4(
    buf: Seq<u32>,
    xm: int,
    ym: int,
    x: int,
    y: int,
    ox: int,
    oy: int,
    colour: u32,
) -> Seq<u32> {
    let b1 = spec_blend_at(buf, xm - x + ox, ym + y + oy, colour);
    let b2 = spec_blend_at(b1, xm - y - oy, ym - x + ox, colour);
    let b3 = spec_blend_at(b2, xm + x - ox, ym - y - oy, colour);
    spec_blend_at(b3, xm + y + oy, ym + x - ox, colour)
}

/// Every blend one anti-aliased step performs, in order: the primary ring
/// pixel in each quadrant, then on an `x` step the outward neighbours, then
/// on a `y` step the inward neighbours.
pub open spec fn aa_iter(
    buf: Seq<u32>,
    xm: int,
    ym: int,
    r: int,
    x: int,
    y: int,
    colour: u32,
) -> Seq<u32> {
    let err = circle_err(r, x, y);
    let b4 = aa_blend4(buf, xm, ym, x, y, 0, 0, colour1_of(colour, r, x, y));
    let b8 = if err + y > 0 {
        let a2 = aa_alpha_out(r, x, y);
        if a2 < 256 {
            aa_blend4(b4, xm, ym, x, y, 0, 1, with_alpha(colour, (255 - a2) as u32))
        } else {
            b4
        }
    } else {
        b4
    };
    if err + x <= 0 {
        let a3 = aa_alpha_in(r, x, y);
        if a3 < 256 {
            aa_blend4(b8, xm, ym, x, y, -1, 0, with_alpha(colour, (255 - a3) as u32))
        } else {
            b8
        }
    } else {
        b8
    }
}

/// The colour of the primary ring pixel at `(x, y)`.
pub open spec fn colour1_of(colour: u32, r: int, x: int, y: int) -> u32 {
    with_alpha(colour, (255 - aa_alpha_main(r, x, y)) as u32)
}

/// The anti-aliased walk from state `(x, y)`: blend one step's pixels,
/// advance, and continue while `x` is negative.
pub open spec fn aa_trace(
    buf: Seq<u32>,
    xm: int,
    ym: int,
    r: int,
    x: int,
    y: int,
    colour: u32,
) -> Seq<u32>
    decreases 0 - x, r - y,
        when aa_inv(r, x, y)
        via aa_trace_decreases
{
    let buf2 = aa_iter(buf, xm, ym, r, x, y, colour);
    let next = aa_next(r, x, y);
    if next.0 < 0 {
        aa_trace(buf2, xm, ym, r, next.0, next.1, colour)
    } else {
        buf2
    }
}

#[via_fn]
proof fn aa_trace_decreases(buf: Seq<u32>, xm: int, ym: int, r: int, x: int, y: int, colour: u32) {
    lemma_aa_step(r, x, y);
}

/// The whole effect of the anti-aliased circle primitive: a no-op when the
/// centre lies nearer an edge than the radius, otherwise the full walk
/// from the leftmost point `(-r, 0)`.
pub open spec fn spec_draw_circle(buf: Seq<u32>, xm: int, ym: int, r: int, colour: u32) -> Seq<
    u32,
> {
    if xm < r || ym < r {
        buf
    } else {
        aa_trace(buf, xm, ym, r, -r, 0, colour)
    }
}

/// Expanding the squares: the error term is the signed distance plus the
/// linear correction `2 * (x + y + 1)`.
proof fn lemma_err_is_d(r: int, x: int, y: int)
    ensures
        circle_err(r, x, y) == aa_d(r, x, y) + 2 * x + 2 * y + 2,
{
    assert((x + 1) * (x + 1) + (y + 1) * (y + 1) - r * r == x * x + y * y - r * r + 2 * x + 2 * y
        + 2) by (nonlinear_arith);
}

/// Stepping `x` shifts the signed distance by `2 * x + 1`.
proof fn lemma_d_shift_x(r: int, x: int, y: int)
    ensures
        aa_d(r, x + 1, y) == aa_d(r, x, y) + 2 * x + 1,
{
    assert((x + 1) * (x + 1) + y * y - r * r == x * x + y * y - r * r + 2 * x + 1)
        by (nonlinear_arith);
}

/// Stepping `y` shifts the signed distance by `2 * y + 1`.
proof fn lemma_d_shift_y(r: int, x: int, y: int)
    ensures
        aa_d(r, x, y + 1) == aa_d(r, x, y) + 2 * y + 1,
{
    assert(x * x + (y + 1) * (y + 1) - r * r == x * x + y * y - r * r + 2 * y + 1)
        by (nonlinear_arith);
}

/// An alpha scaled by a numerator no greater than the denominator stays a
/// byte.
proof fn lemma_alpha_byte(num: int, dm: int)
    requires
        0 <= num <= dm,
        1 <= dm,
    ensures
        0 <= 255 * num / dm <= 255,
{
    vstd::arithmetic::mul::lemma_mul_inequality(num, dm, 255);
    vstd::arithmetic::div_mod::lemma_div_is_ordered(255 * num, 255 * dm, dm);
    vstd::arithmetic::div_mod::lemma_div_by_multiple(255, dm);
    vstd::arithmetic::div_mod::lemma_div_pos_is_pos(255 * num, dm);
    assert(num * 255 == 255 * num && dm * 255 == 255 * dm) by (nonlinear_arith);
}

/// A nonnegative scaled alpha.
proof fn lemma_alpha_nonneg(num: int, dm: int)
    requires
        0 <= num,
        1 <= dm,
    ensures
        0 <= 255 * num / dm,
{
    vstd::arithmetic::div_mod::lemma_div_pos_is_pos(255 * num, dm);
}

/// Every anti-aliased step moves, stays in the state space, and keeps its
/// three alpha values in range.
pub proof fn lemma_aa_step(r: int, x: int, y: int)
    requires
        aa_inv(r, x, y),
    ensures
        ({
            let (x2, y2) = aa_next(r, x, y);
            &&& x <= x2 <= x + 1
            &&& y <= y2 <= y + 1
            &&& x2 > x || y2 > y
            &&& y2 <= r
            &&& x2 <= -1 ==> aa_inv(r, x2, y2)
        }),
        0 <= aa_alpha_main(r, x, y) <= 255,
        0 <= circle_err(r, x, y) - 2 * x - 1 <= 4 * r,
        2 * y + 3 - circle_err(r, x, y) <= 4 * r,
        circle_err(r, x, y) + x <= 0 ==> 2 * y + 3 - circle_err(r, x, y) >= 2,
        circle_err(r, x, y) + x <= 0 ==> aa_alpha_in(r, x, y) >= 0,
        aa_alpha_out(r, x, y) >= 0,
{
    let err = circle_err(r, x, y);
    let d = aa_d(r, x, y);
    lemma_err_is_d(r, x, y);
    lemma_d_shift_x(r, x, y);
    lemma_d_shift_y(r, x, y);
    let xstep = err + y > 0;
    let ystep = err + x <= 0;

    // Alpha ranges follow from the distance bounds.
    lemma_alpha_byte(vstd::math::abs(d) as int, aa_diam(r));
    lemma_alpha_nonneg(err - 2 * x - 1, aa_diam(r));
    if ystep {
        lemma_alpha_nonneg(2 * y + 3 - err, aa_diam(r));
    }

    if ystep {
        // A y step implies y < r: at y >= r the error is already too large.
        assert(y < r) by (nonlinear_arith)
            requires
                err == (x + 1) * (x + 1) + (y + 1) * (y + 1) - r * r,
                err + x <= 0,
                -r <= x <= -1,
                0 <= y,
                1 <= r;
        lemma_d_shift_y(r, x + 1, y);
    }
    if xstep && ystep && x == -2 {
        // err == 2 would need two squares one apart, which r >= 1 forbids.
        assert(y + 1 <= r ==> (y + 1) * (y + 1) <= r * r) by (nonlinear_arith)
            requires
                0 <= y;
        assert(y + 1 >= r + 1 ==> (y + 1) * (y + 1) >= (r + 1) * (r + 1)) by (nonlinear_arith)
            requires
                0 <= y,
                1 <= r;
        assert((r + 1) * (r + 1) == r * r + 2 * r + 1) by (nonlinear_arith);
        assert((x + 1) * (x + 1) == 1) by (nonlinear_arith)
            requires
                x == -2;
        assert(err != -x);
    }
    if xstep {
        lemma_d_shift_x(r, x, if ystep { y + 1 } else { y });
    }
}

impl Framebuffer {
    /// Blends `colour` onto the pixel whose column and row are given when in
    /// range (`None` stands for a coordinate that cannot be a `usize`).
    fn blend_at_coords(
        &mut self,
        px: Option<usize>,
        py: Option<usize>,
        colour: u32,
        px_i: Ghost<int>,
        py_i: Ghost<int>,
    )
        requires
            match px {
                Some(v) => px_i@ == v as int,
                None => px_i@ < 0 || px_i@ > usize::MAX,
            },
            match py {
                Some(v) => py_i@ == v as int,
                None => py_i@ < 0 || py_i@ > usize::MAX,
            },
        ensures
            final(self).buffer@ == spec_blend_at(old(self).buffer@, px_i@, py_i@, colour),
    {
        let len = self.buffer.len();
        if let (Some(a), Some(b)) = (px, py) {
            let i = Framebuffer::xy_to_i(a, b);
            if i < len {
                self.blend(i, colour);
            }
        }
    }


    /// Blends the primary ring pixel of each quadrant: the four symmetric
    /// points of `(-nx, yy)` around `(xm, ym)`.
    fn blend_quad_main(
        &mut self,
        xm: usize,
        ym: usize,
        nx: usize,
        yy: usize,
        colour: u32,
        gx: Ghost<int>,
        gy: Ghost<int>,
    )
        requires
            gx@ == -(nx as int),
            gy@ == yy as int,
            nx <= xm,
            yy <= xm,
            nx <= ym,
            yy <= ym,
        ensures
            final(self).buffer@ == aa_blend4(
                old(self).buffer@,
                xm as int,
                ym as int,
                gx@,
                gy@,
                0,
                0,
                colour,
            ),
    {
        self.blend_at_coords(xm.checked_add(nx), ym.checked_add(yy), colour, Ghost(xm - gx@),
            Ghost(ym + gy@));
        self.blend_at_coords(Some(xm - yy), ym.checked_add(nx), colour, Ghost(xm - gy@),
            Ghost(ym - gx@));
        self.blend_at_coords(Some(xm - nx), Some(ym - yy), colour, Ghost(xm + gx@),
            Ghost(ym - gy@));
        self.blend_at_coords(xm.checked_add(yy), Some(ym - nx), colour, Ghost(xm + gy@),
            Ghost(ym + gx@));
    }

    /// Blends the outward neighbour of each quadrant, one pixel further
    /// from the centre along `y`.
    fn blend_quad_outward(
        &mut self,
        xm: usize,
        ym: usize,
        nx: usize,
        yy: usize,
        colour: u32,
        gx: Ghost<int>,
        gy: Ghost<int>,
    )
        requires
            gx@ == -(nx as int),
            gy@ == yy as int,
            nx <= xm,
            nx <= ym,
            yy < usize::MAX,
        ensures
            final(self).buffer@ == aa_blend4(
                old(self).buffer@,
                xm as int,
                ym as int,
                gx@,
                gy@,
                0,
                1,
                colour,
            ),
    {
        self.blend_at_coords(xm.checked_add(nx), ym.checked_add(yy + 1), colour, Ghost(xm - gx@),
            Ghost(ym + gy@ + 1));
        self.blend_at_coords(xm.checked_sub(yy + 1), ym.checked_add(nx), colour,
            Ghost(xm - gy@ - 1), Ghost(ym - gx@));
        self.blend_at_coords(Some(xm - nx), ym.checked_sub(yy + 1), colour, Ghost(xm + gx@),
            Ghost(ym - gy@ - 1));
        self.blend_at_coords(xm.checked_add(yy + 1), Some(ym - nx), colour, Ghost(xm + gy@ + 1),
            Ghost(ym + gx@));
    }

    /// Blends the inward neighbour of each quadrant, one pixel nearer the
    /// centre along `x`.
    fn blend_quad_inward(
        &mut self,
        xm: usize,
        ym: usize,
        nx: usize,
        yy: usize,
        colour: u32,
        gx: Ghost<int>,
        gy: Ghost<int>,
    )
        requires
            gx@ == -(nx as int),
            gy@ == yy as int,
            1 <= nx,
            nx <= xm,
            nx <= ym,
            yy <= xm,
            yy <= ym,
        ensures
            final(self).buffer@ == aa_blend4(
                old(self).buffer@,
                xm as int,
                ym as int,
                gx@,
                gy@,
                -1,
                0,
                colour,
            ),
    {
        self.blend_at_coords(xm.checked_add(nx - 1), ym.checked_add(yy), colour,
            Ghost(xm - gx@ - 1), Ghost(ym + gy@));
        self.blend_at_coords(Some(xm - yy), ym.checked_add(nx - 1), colour, Ghost(xm - gy@),
            Ghost(ym - gx@ - 1));
        self.blend_at_coords(Some(xm - (nx - 1)), Some(ym - yy), colour, Ghost(xm + gx@ + 1),
            Ghost(ym - gy@));
        self.blend_at_coords(xm.checked_add(yy), Some(ym - (nx - 1)), colour, Ghost(xm + gy@),
            Ghost(ym + gx@ + 1));
    }

    /// Draws an anti-aliased circle of `radius` around `(x_mid, y_mid)` by
    /// the signed-error midpoint walk, blending a coverage-derived alpha
    /// into the primary ring pixel of each quadrant and, when the local
    /// step direction changes, into an adjacent outward or inward pixel at
    /// the complementary alpha; a no-op when the centre is nearer an edge
    /// than the radius, and every out-of-buffer pixel is skipped.
    #[verifier::loop_isolation(false)]
    #[verifier::rlimit(100)]
    pub fn draw_circle(&mut self, x_mid: usize, y_mid: usize, radius: usize, colour: u32)
        requires
            1 <= radius,
            radius <= 0x4000_0000,
        ensures
            final(self).buffer@ == spec_draw_circle(
                old(self).buffer@,
                x_mid as int,
                y_mid as int,
                radius as int,
                colour,
            ),
    {
        if x_mid < radius || y_mid < radius {
            return ;
        }
        let r_i: i64 = radius as i64;
        let mut x: i64 = -r_i;
        let mut y: i64 = 0;
        let mut err: i64 = 2 - 2 * r_i;
        let diameter: u64 = 2 * (radius as u64) - 1;
        let ghost buf0 = self.buffer@;
        let ghost rg = radius as int;
        proof {
            assert(2 - 2 * rg == circle_err(rg, -rg, 0) && aa_d(rg, -rg, 0) == 0)
                by (nonlinear_arith);
        }
        let mut cont = true;
        while cont
            invariant
                cont ==> aa_inv(rg, x as int, y as int),
                cont ==> err as int == circle_err(rg, x as int, y as int),
                aa_trace(buf0, x_mid as int, y_mid as int, rg, -rg, 0, colour) == if cont {
                    aa_trace(self.buffer@, x_mid as int, y_mid as int, rg, x as int, y as int,
                        colour)
                } else {
                    self.buffer@
                },
            decreases 1 + r_i - x + r_i - y,
        {
            let ghost buf_head = self.buffer@;
            let ghost xg = x as int;
            let ghost yg = y as int;
            proof {
                lemma_aa_step(rg, xg, yg);
                lemma_err_is_d(rg, xg, yg);
                lemma_err_bound(rg, xg, yg, err as int);
            }
            let nx = (-x) as usize;
            let yy = y as usize;

            // The primary ring pixel of each quadrant, at an alpha derived
            // from the signed distance to the circle's edge.
            let dval: i64 = err - 2 * (x + y) - 2;
            let ad: u64 = if dval >= 0 {
                dval as u64
            } else {
                (-dval) as u64
            };
            let alpha = 255 * ad / diameter;
            proof {
                assert(alpha as int == aa_alpha_main(rg, xg, yg));
            }
            let ring_colour = (colour & 0x00_FF_FF_FF) | (((255 - alpha) as u32) << 24);
            self.blend_quad_main(x_mid, y_mid, nx, yy, ring_colour, Ghost(xg), Ghost(yg));
            assert(self.buffer@ == aa_blend4(buf_head, x_mid as int, y_mid as int, xg, yg, 0, 0,
                colour1_of(colour, rg, xg, yg)));

            // Remember the head state: the y step tests and draws with it.
            let e2 = err;
            let x2 = x;

            // x step, with the outward neighbour of each quadrant.
            if err + y > 0 {
                let outward: i64 = err - 2 * x - 1;
                let alpha_out = 255 * (outward as u64) / diameter;
                proof {
                    assert(alpha_out as int == aa_alpha_out(rg, xg, yg));
                }
                if alpha_out < 256 {
                    let out_colour = (colour & 0x00_FF_FF_FF) | (((255 - alpha_out) as u32)
                        << 24);
                    self.blend_quad_outward(x_mid, y_mid, nx, yy, out_colour, Ghost(xg),
                        Ghost(yg));
                }
                x = x + 1;
                err = err + x * 2 + 1;
                proof {
                    lemma_err_shift_x(rg, xg, yg, e2 as int);
                }
            }

            // y step, with the inward neighbour of each quadrant.
            if e2 + x2 <= 0 {
                let inward: i64 = 2 * y + 3 - e2;
                let alpha_in = 255 * (inward as u64) / diameter;
                proof {
                    assert(alpha_in as int == aa_alpha_in(rg, xg, yg));
                }
                if alpha_in < 256 {
                    let in_colour = (colour & 0x00_FF_FF_FF) | (((255 - alpha_in) as u32) << 24);
                    self.blend_quad_inward(x_mid, y_mid, nx, yy, in_colour, Ghost(xg),
                        Ghost(yg));
                }
                proof {
                    if xg < x as int {
                        lemma_err_bound(rg, xg + 1, yg, err as int);
                    } else {
                        lemma_err_bound(rg, xg, yg, err as int);
                    }
                }
                let ghost errm = err as int;
                y = y + 1;
                err = err + y * 2 + 1;
                proof {
                    if xg < x as int {
                        lemma_err_shift_y(rg, xg + 1, yg, errm);
                    } else {
                        lemma_err_shift_y(rg, xg, yg, errm);
                    }
                }
            }
            proof {
                assert(self.buffer@ == aa_iter(buf_head, x_mid as int, y_mid as int, rg, xg, yg,
                    colour));
                assert((x as int, y as int) == aa_next(rg, xg, yg));
                assert(aa_trace(buf_head, x_mid as int, y_mid as int, rg, xg, yg, colour)
                    == if x < 0 {
                    aa_trace(self.buffer@, x_mid as int, y_mid as int, rg, x as int, y as int,
                        colour)
                } else {
                    self.buffer@
                });
            }
            cont = x < 0;
        }
    }
}

} // verus!
