use ua571::fb::{Framebuffer, HEIGHT, WIDTH};

fn lit_count(fb: &Framebuffer) -> usize {
    fb.pixels.iter().filter(|p| **p).count()
}

#[test]
fn invert_toggles() {
    let mut fb = Framebuffer::new();
    fb.pixel(10, 10);
    assert!(fb.get(10, 10));
    fb.invert_rect(10, 10, 1, 1);
    assert!(!fb.get(10, 10));
}

#[test]
fn line_sets_endpoints() {
    let mut fb = Framebuffer::new();
    fb.line(0, 0, 10, 0);
    assert!(fb.get(0, 0));
    assert!(fb.get(10, 0));
    assert!(fb.get(5, 0));
}

#[test]
fn new_and_clear_are_dark() {
    let mut fb = Framebuffer::new();
    assert_eq!(fb.pixels.len(), WIDTH * HEIGHT);
    assert_eq!(lit_count(&fb), 0);
    fb.fill_rect(0, 0, 20, 20, true);
    fb.clear();
    assert_eq!(lit_count(&fb), 0);
}

#[test]
fn off_canvas_writes_are_ignored() {
    let mut fb = Framebuffer::new();
    fb.pixel(-1, 5);
    fb.pixel(WIDTH as i32, 5);
    fb.pixel(5, HEIGHT as i32);
    assert_eq!(lit_count(&fb), 0);
    assert!(!fb.get(-1, 5));
    assert!(Framebuffer::in_bounds(0, 0));
    assert!(!Framebuffer::in_bounds(640, 0));
    assert!(!Framebuffer::in_bounds(0, 240));
}

#[test]
fn diagonal_line_is_one_pixel_per_step() {
    let mut fb = Framebuffer::new();
    fb.line(3, 3, 8, 8);
    for i in 3..=8 {
        assert!(fb.get(i, i));
    }
    assert_eq!(lit_count(&fb), 6);
}

#[test]
fn steep_line_reaches_both_ends() {
    let mut fb = Framebuffer::new();
    fb.line(20, 30, 17, 2);
    assert!(fb.get(20, 30));
    assert!(fb.get(17, 2));
    assert_eq!(lit_count(&fb), 29);
}

#[test]
fn rect_outline_draws_only_the_border() {
    let mut fb = Framebuffer::new();
    fb.rect_outline(10, 20, 5, 4);
    assert!(fb.get(10, 20));
    assert!(fb.get(14, 23));
    assert!(fb.get(12, 20));
    assert!(fb.get(10, 22));
    assert!(!fb.get(12, 21));
    assert_eq!(lit_count(&fb), 14);
    let mut empty = Framebuffer::new();
    empty.rect_outline(10, 20, 0, 4);
    assert_eq!(lit_count(&empty), 0);
}

#[test]
fn fill_rect_is_clipped_to_the_canvas() {
    let mut fb = Framebuffer::new();
    fb.fill_rect(-5, -5, 10, 10, true);
    assert_eq!(lit_count(&fb), 25);
    fb.fill_rect(0, 0, 2, 2, false);
    assert_eq!(lit_count(&fb), 21);
}

#[test]
fn invert_twice_restores() {
    let mut fb = Framebuffer::new();
    fb.line(0, 0, 50, 30);
    let before = fb.pixels.clone();
    fb.invert_rect(5, 5, 30, 20);
    assert_ne!(fb.pixels, before);
    fb.invert_rect(5, 5, 30, 20);
    assert_eq!(fb.pixels, before);
}

#[test]
fn circle_marks_compass_points() {
    let mut fb = Framebuffer::new();
    fb.circle(100, 100, 14);
    assert!(fb.get(100, 86));
    assert!(fb.get(100, 114));
    assert!(fb.get(86, 100));
    assert!(fb.get(114, 100));
    assert!(!fb.get(100, 100));
    let mut none = Framebuffer::new();
    none.circle(100, 100, 0);
    assert_eq!(lit_count(&none), 0);
}

#[test]
fn text_width_counts_chars() {
    assert_eq!(Framebuffer::text_width("UA 571-C", 2), 128);
    assert_eq!(Framebuffer::text_width("abc", 0), 24);
    assert_eq!(Framebuffer::text_width("", 3), 0);
}

#[test]
fn present_scaled_doubles_pixels() {
    let mut fb = Framebuffer::new();
    fb.pixel(1, 0);
    let (w, h) = (WIDTH * 2, HEIGHT * 2);
    let mut out = vec![7u32; w * h];
    fb.present_scaled(&mut out, w, h, 0xFFFFFF, 0x000000);
    assert_eq!(out[0], 0x000000);
    assert_eq!(out[2], 0xFFFFFF);
    assert_eq!(out[3], 0xFFFFFF);
    assert_eq!(out[w + 2], 0xFFFFFF);
    assert_eq!(out[4], 0x000000);
    let mut short = vec![9u32; 3];
    fb.present_scaled(&mut short, w, h, 1, 2);
    assert_eq!(short, vec![9, 9, 9]);
}

#[test]
fn present_rgba_writes_four_bytes_per_pixel() {
    let mut fb = Framebuffer::new();
    fb.pixel(0, 0);
    let (w, h) = (WIDTH, HEIGHT);
    let mut out = vec![0u8; w * h * 4];
    fb.present_rgba(&mut out, w, h, [1, 2, 3, 4], [5, 6, 7, 8]);
    assert_eq!(&out[0..8], &[1, 2, 3, 4, 5, 6, 7, 8]);
}

#[test]
fn glyph_bits_become_pixels_or_blocks() {
    let glyph = [0x81u8, 0, 0, 0, 0, 0, 0, 0x18];
    let mut fb = Framebuffer::new();
    fb.draw_glyph(glyph, 10, 20, 1);
    assert!(fb.get(10, 20));
    assert!(fb.get(17, 20));
    assert!(fb.get(13, 27));
    assert!(fb.get(14, 27));
    assert_eq!(lit_count(&fb), 4);

    let mut big = Framebuffer::new();
    big.draw_glyph(glyph, 0, 0, 2);
    assert!(big.get(0, 0) && big.get(1, 1));
    assert!(big.get(14, 0) && big.get(15, 1));
    assert_eq!(lit_count(&big), 16);

    let mut clamped = Framebuffer::new();
    clamped.draw_glyph(glyph, 10, 20, 0);
    assert_eq!(clamped.pixels, fb.pixels);
}

#[test]
fn circle_is_mirror_symmetric() {
    let mut fb = Framebuffer::new();
    fb.circle(50, 60, 9);
    for y in 0..HEIGHT as i32 {
        for x in 0..WIDTH as i32 {
            if fb.get(x, y) {
                assert!(fb.get(100 - x, y));
                assert!(fb.get(x, 120 - y));
                assert!(fb.get(50 + (y - 60), 60 + (x - 50)));
            }
        }
    }
    assert!(Framebuffer::default().pixels.iter().all(|p| !*p));
}
