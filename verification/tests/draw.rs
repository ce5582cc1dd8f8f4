use ua571::config::Config;
use ua571::draw::{
    draw_boxed_value, draw_circled_letter, draw_gauge_frame, fill_gauge_bottom_up,
    invert_selection, menu_section_rect, render, sentry_mark,
};
use ua571::fb::Framebuffer;
use ua571::options::MenuSection;
use ua571::paint::Font;
use ua571::state::{AppState, Screen};

#[test]
fn sentry_marks_follow_ids() {
    assert_eq!(sentry_mark(1), 'A');
    assert_eq!(sentry_mark(2), 'B');
    assert_eq!(sentry_mark(3), 'C');
    assert_eq!(sentry_mark(4), 'D');
    assert_eq!(sentry_mark(9), 'A');
}

#[test]
fn every_section_has_a_frame() {
    for s in MenuSection::ALL {
        assert!(menu_section_rect(s).is_some());
    }
    assert_eq!(
        menu_section_rect(MenuSection::IffStatus),
        Some((322, 37, 157, 28))
    );
}

#[test]
fn invert_selection_highlights_one_row() {
    let mut fb = Framebuffer::new();
    invert_selection(&mut fb, MenuSection::SystemMode, 1);
    assert!(fb.get(1, 82));
    assert!(fb.get(158, 94));
    assert!(!fb.get(1, 81));
    assert!(!fb.get(159, 82));
    let mut untouched = Framebuffer::new();
    invert_selection(&mut untouched, MenuSection::WeaponStatus, 2);
    assert!(untouched.pixels.iter().all(|p| !*p));
}

#[test]
fn gauge_frame_has_rail_base_and_ticks() {
    let mut fb = Framebuffer::new();
    draw_gauge_frame(&mut fb, 508, 68, 180);
    assert!(fb.get(528, 100));
    assert!(fb.get(508, 180));
    assert!(fb.get(520, 68));
    assert!(fb.get(520, 164));
    assert!(!fb.get(519, 164));
    assert!(fb.get(524, 172));
    assert!(!fb.get(523, 172));
    assert!(!fb.get(515, 100));
}

fn solid_font() -> Font {
    [[0xFFu8; 8]; 128]
}

fn lit_count(fb: &Framebuffer, x0: i32, y0: i32, x1: i32, y1: i32) -> usize {
    let mut n = 0;
    for y in y0..y1 {
        for x in x0..x1 {
            if fb.get(x, y) {
                n += 1;
            }
        }
    }
    n
}

#[test]
fn draw_text_advances_one_cell_per_character() {
    let font = solid_font();
    let mut fb = Framebuffer::new();
    fb.draw_text("AB", 10, 10, 1, &font);
    assert_eq!(lit_count(&fb, 10, 10, 26, 18), 16 * 8);
    assert!(!fb.get(26, 10));
    assert!(!fb.get(10, 18));
    let mut nl = Framebuffer::new();
    nl.draw_text("A\nB", 10, 10, 1, &font);
    assert_eq!(nl.pixels, fb.pixels);
}

#[test]
fn draw_text_leaves_a_blank_cell_for_non_ascii() {
    let font = solid_font();
    let mut fb = Framebuffer::new();
    fb.draw_text("A—B", 0, 0, 0, &font);
    assert_eq!(lit_count(&fb, 0, 0, 8, 8), 64);
    assert_eq!(lit_count(&fb, 8, 0, 16, 8), 0);
    assert_eq!(lit_count(&fb, 16, 0, 24, 8), 64);
}

#[test]
fn draw_char_uses_the_glyph_table() {
    let mut font = [[0u8; 8]; 128];
    font['X' as usize] = [0x80, 0, 0, 0, 0, 0, 0, 0x01];
    let mut fb = Framebuffer::new();
    fb.draw_char('X', 4, 4, 2, &font);
    assert_eq!(lit_count(&fb, 0, 0, 40, 40), 8);
    assert!(fb.get(4, 4) && fb.get(5, 5));
    assert!(fb.get(18, 18) && fb.get(19, 19));
    assert!(!fb.get(6, 4));
}

#[test]
fn circled_letter_is_centred_in_its_ring() {
    let font = solid_font();
    let mut fb = Framebuffer::new();
    draw_circled_letter(&mut fb, 'A', 18, 17, &font);
    assert!(fb.get(18, 17));
    assert!(fb.get(10, 9) && fb.get(25, 24));
    assert!(!fb.get(26, 17));
    assert!(fb.get(32, 17) && fb.get(4, 17) && fb.get(18, 3) && fb.get(18, 31));
}

#[test]
fn boxed_value_is_centred_in_a_padded_box() {
    let font = solid_font();
    let mut fb = Framebuffer::new();
    draw_boxed_value(&mut fb, "7", 170, 68, 2, 10, 8, &font);
    assert!(fb.get(170, 68) && fb.get(237, 68) && fb.get(170, 99) && fb.get(237, 99));
    assert!(!fb.get(238, 68) && !fb.get(170, 100));
    assert_eq!(lit_count(&fb, 196, 76, 212, 92), 256);
    assert!(!fb.get(195, 80) && !fb.get(212, 80));
}

#[test]
fn gauge_fill_rounds_to_the_nearest_pixel() {
    let mut fb = Framebuffer::new();
    fill_gauge_bottom_up(&mut fb, 508, 68, 180, 20, 50, 100);
    assert!(!fb.get(508, 123) && fb.get(508, 124) && fb.get(527, 179));
    assert!(!fb.get(528, 179) && !fb.get(508, 180));
    let mut one = Framebuffer::new();
    fill_gauge_bottom_up(&mut one, 0, 68, 180, 1, 1, 100);
    assert!(one.get(0, 179) && !one.get(0, 178));
    let mut over = Framebuffer::new();
    fill_gauge_bottom_up(&mut over, 0, 68, 180, 1, 150, 100);
    assert!(over.get(0, 68) && !over.get(0, 67));
    let mut empty = Framebuffer::new();
    fill_gauge_bottom_up(&mut empty, 0, 68, 180, 1, 0, 100);
    fill_gauge_bottom_up(&mut empty, 0, 68, 180, 1, 7, 0);
    assert!(empty.pixels.iter().all(|p| !*p));
}

#[test]
fn render_options_highlights_focus_and_selection() {
    let font = solid_font();
    let state = AppState::new(Config {
        show_boot: false,
        ..Config::default()
    });
    let mut fb = Framebuffer::new();
    fb.pixels[0] = true;
    render(&state, &mut fb, &font);
    assert!(fb.get(300, 35));
    assert!(fb.get(150, 70));
    assert!(!fb.get(100, 70));
    assert!(fb.get(150, 60));
    assert!(fb.get(5, 220));
    assert!(!fb.get(0, 0));
    assert!(fb.get(256, 2) && fb.get(383, 17) && !fb.get(384, 2));
}

#[test]
fn render_boot_fills_the_progress_bar() {
    let font = solid_font();
    let mut state = AppState::new(Config::default());
    assert_eq!(state.screen, Screen::Boot);
    let mut fb = Framebuffer::new();
    render(&state, &mut fb, &font);
    assert!(fb.get(220, 175) && !fb.get(221, 180));
    for _ in 0..20 {
        state.tick();
    }
    render(&state, &mut fb, &font);
    assert!(fb.get(221, 180) && fb.get(319, 180) && !fb.get(320, 180));
}

#[test]
fn render_fire_flashes_critical() {
    let font = solid_font();
    let mut state = AppState::new(Config {
        show_boot: false,
        starting_rounds: 50,
        ..Config::default()
    });
    state.toggle_fire_panel();
    assert!(state.fire_telemetry().critical);
    let mut fb = Framebuffer::new();
    render(&state, &mut fb, &font);
    assert!(fb.get(6, 101) && fb.get(12, 107) && fb.get(18, 113));
    assert!(!fb.get(8, 103));
    for _ in 0..3 {
        state.tick();
    }
    assert!(state.fire_telemetry().critical_blink);
    render(&state, &mut fb, &font);
    assert!(!fb.get(6, 101) && fb.get(8, 103));
}
