use tilegame::constants::{SCREEN_HEIGHT, SCREEN_WIDTH};
use tilegame::framebuffer::Framebuffer;

#[test]
fn new_framebuffer_is_zeroed() {
    let fb = Framebuffer::new();
    assert_eq!(fb.buffer.len(), SCREEN_WIDTH * SCREEN_HEIGHT);
    assert!(fb.buffer.iter().all(|&p| p == 0));
}

#[test]
fn clear_zeroes_every_pixel() {
    let mut fb = Framebuffer::new();
    fb.draw_rect(0, 0, 16, 16, 0xFFABCDEF);
    fb.clear();
    assert!(fb.buffer.iter().all(|&p| p == 0));
}

#[test]
fn xy_to_i_is_row_major() {
    assert_eq!(Framebuffer::xy_to_i(3, 2), 2 * SCREEN_WIDTH + 3);
}

#[test]
fn xy_to_i_saturates_instead_of_wrapping() {
    assert_eq!(Framebuffer::xy_to_i(5, usize::MAX), usize::MAX);
}

#[test]
fn draw_rect_fills_exactly_its_region() {
    let mut fb = Framebuffer::new();
    fb.draw_rect(10, 20, 3, 2, 0xFF112233);
    let mut painted = 0;
    for (i, &p) in fb.buffer.iter().enumerate() {
        let (x, y) = (i % SCREEN_WIDTH, i / SCREEN_WIDTH);
        if (10..13).contains(&x) && (20..22).contains(&y) {
            assert_eq!(p, 0xFF112233);
            painted += 1;
        } else {
            assert_eq!(p, 0);
        }
    }
    assert_eq!(painted, 6);
}

#[test]
fn draw_rect_clips_at_the_bottom_edge() {
    let mut fb = Framebuffer::new();
    // Ten of the thirty-two rows fit; no panic, nothing outside mutated.
    fb.draw_rect(100, 230, 32, 32, 0xFF445566);
    let painted = fb.buffer.iter().filter(|&&p| p == 0xFF445566).count();
    assert_eq!(painted, 32 * 10);
    assert_eq!(fb.buffer[239 * SCREEN_WIDTH + 100], 0xFF445566);
    assert_eq!(fb.buffer[229 * SCREEN_WIDTH + 100], 0);
}

#[test]
fn draw_rect_far_outside_is_a_no_op() {
    let mut fb = Framebuffer::new();
    fb.draw_rect(usize::MAX - 5, usize::MAX - 5, 4, 4, 0xFF445566);
    assert!(fb.buffer.iter().all(|&p| p == 0));
}

#[test]
fn blend_opaque_colour_replaces_the_pixel() {
    let mut fb = Framebuffer::new();
    fb.buffer[5] = 0x11223344;
    fb.blend(5, 0xFFAABBCC);
    assert_eq!(fb.buffer[5], 0xFFAABBCC);
}

#[test]
fn blend_transparent_colour_keeps_the_pixel() {
    let mut fb = Framebuffer::new();
    fb.buffer[7] = 0x11223344;
    fb.blend(7, 0x00AABBCC);
    // The channels survive; only the alpha byte is forced opaque.
    assert_eq!(fb.buffer[7], 0xFF223344);
}

#[test]
fn blend_half_alpha_has_the_documented_value() {
    let mut fb = Framebuffer::new();
    fb.blend(0, 0x80_00_00_FF);
    // (0x81 * 0xFF + 0x80 * 0) >> 8 == 0x80 for the red channel.
    assert_eq!(fb.buffer[0], 0xFF000080);
}

#[test]
fn blend_xy_skips_pixels_outside_the_buffer() {
    let mut fb = Framebuffer::new();
    fb.blend_xy(0, SCREEN_HEIGHT, 0xFFAABBCC);
    assert!(fb.buffer.iter().all(|&p| p == 0));
}

#[test]
fn solid_circle_radius_one_is_a_diamond() {
    let mut fb = Framebuffer::new();
    fb.draw_solid_circle(10, 10, 1, 0xFF0000FF);
    for (x, y) in [(11, 10), (10, 11), (9, 10), (10, 9)] {
        assert_eq!(fb.buffer[y * SCREEN_WIDTH + x], 0xFF0000FF);
    }
    assert_eq!(fb.buffer[10 * SCREEN_WIDTH + 10], 0);
    let painted = fb.buffer.iter().filter(|&&p| p != 0).count();
    assert_eq!(painted, 4);
}

#[test]
fn solid_circle_nearer_the_edge_than_its_radius_is_a_no_op() {
    let mut fb = Framebuffer::new();
    fb.draw_solid_circle(2, 100, 3, 0xFF0000FF);
    assert!(fb.buffer.iter().all(|&p| p == 0));
}

#[test]
fn circle_radius_one_draws_ring_and_opaque_diagonals() {
    let mut fb = Framebuffer::new();
    fb.draw_circle(10, 10, 1, 0xFF0000FF);
    // The first step covers the ring exactly: full-alpha blends.
    for (x, y) in [(11, 10), (10, 11), (9, 10), (10, 9)] {
        assert_eq!(fb.buffer[y * SCREEN_WIDTH + x], 0xFF0000FF);
    }
    // The second step blends at zero alpha: the background survives, with
    // its alpha byte forced opaque.
    for (x, y) in [(11, 11), (9, 11), (9, 9), (11, 9)] {
        assert_eq!(fb.buffer[y * SCREEN_WIDTH + x], 0xFF000000);
    }
    assert_eq!(fb.buffer[10 * SCREEN_WIDTH + 10], 0);
}

#[test]
fn circle_nearer_the_edge_than_its_radius_is_a_no_op() {
    let mut fb = Framebuffer::new();
    fb.draw_circle(100, 2, 3, 0xFF0000FF);
    assert!(fb.buffer.iter().all(|&p| p == 0));
}

#[test]
fn circle_blends_between_ring_neighbours() {
    // A larger circle must write at least the four cardinal extremes.
    let mut fb = Framebuffer::new();
    fb.draw_circle(100, 100, 3, 0xFF0000FF);
    for (x, y) in [(103, 100), (97, 100), (100, 103), (100, 97)] {
        assert_ne!(fb.buffer[y * SCREEN_WIDTH + x], 0);
    }
}
