//! The console scene drawn onto the framebuffer, after the GRiD layout: the
//! header with its unit marks, the Options and Fire panels, the status strip
//! and the POST splash. Every routine states the exact list of primitives it
//! draws (see `paint`), and `render` states the whole frame.
use vstd::prelude::*;
use vstd::string::*;

use crate::fb::{
    fits_i32, in_rect, line_points, outline_points, lemma_drawn_column, lemma_outline_is_border, lemma_drawn_row, lemma_line_horizontal, max, min,
    on_canvas, Framebuffer, WIDTH,
};
use crate::fire::FireTelemetry;
use crate::options::{rows_of, MenuSection, WeaponStatus};
use crate::paint::{
    char_ops, lemma_ops_lit_concat, lemma_paints_concat, lemma_paints_empty, lemma_paints_step,
    lemma_fill_between, lemma_text_keeps_lit, lemma_text_rows, norm_scale, ops_lit, text_ops, then_circle, then_fill, then_invert, then_line, then_outline, then_text, Font, Op,
};
use crate::sentry::Sentry;
use crate::state::{AppModel, AppState, Screen};
use crate::text::{decimal, decimal_string, lemma_decimal_len, push_decimal};

verus! {

/// The unit letter of sentry `id`: 1→A … 4→D; any other id reads A.
pub open spec fn spec_sentry_mark(id: u8) -> char {
    match id {
        2 => 'B',
        3 => 'C',
        4 => 'D',
        _ => 'A',
    }
}

/// Sentry 1→A … 4→D (circled unit marks in the header); any other id reads A.
pub fn sentry_mark(id: u8) -> (r: char)
    ensures
        r == spec_sentry_mark(id),
{
    match id {
        1 => 'A',
        2 => 'B',
        3 => 'C',
        4 => 'D',
        _ => 'A',
    }
}

/// The frame of each menu section as `(x, y, w, h)`.
pub open spec fn section_frame(section: MenuSection) -> (i32, i32, i32, i32) {
    match section {
        MenuSection::SystemMode => (1, 37, 158, 28),
        MenuSection::WeaponStatus => (162, 37, 157, 28),
        MenuSection::IffStatus => (322, 37, 157, 28),
        MenuSection::TestRoutine => (482, 37, 155, 28),
        MenuSection::TargetProfile => (1, 126, 211, 15),
        MenuSection::SpectralProfile => (215, 126, 211, 15),
        MenuSection::TargetSelect => (429, 126, 208, 15),
    }
}

/// Every section has a frame.
pub fn menu_section_rect(section: MenuSection) -> (r: Option<(i32, i32, i32, i32)>)
    ensures
        r == Some(section_frame(section)),
{
    Some(
        match section {
            MenuSection::SystemMode => (1, 37, 158, 28),
            MenuSection::WeaponStatus => (162, 37, 157, 28),
            MenuSection::IffStatus => (322, 37, 157, 28),
            MenuSection::TestRoutine => (482, 37, 155, 28),
            MenuSection::TargetProfile => (1, 126, 211, 15),
            MenuSection::SpectralProfile => (215, 126, 211, 15),
            MenuSection::TargetSelect => (429, 126, 208, 15),
        },
    )
}

/// The highlight bar of option `index` in `section`: the upper sections stack
/// 13-pixel rows from y = 68, the lower ones from y = 144, 14 pixels apart;
/// an index past the section's options has none.
pub open spec fn selection_rect(section: MenuSection, index: int) -> Option<(i32, i32, i32, i32)> {
    match section {
        MenuSection::SystemMode => if index == 0 {
            Some((1, 68, 158, 13))
        } else if index == 1 {
            Some((1, 82, 158, 13))
        } else if index == 2 {
            Some((1, 96, 157, 13))
        } else {
            None
        },
        MenuSection::WeaponStatus => if index == 0 {
            Some((162, 68, 157, 13))
        } else if index == 1 {
            Some((162, 82, 157, 13))
        } else {
            None
        },
        MenuSection::IffStatus => if index == 0 {
            Some((322, 68, 157, 13))
        } else if index == 1 {
            Some((322, 82, 157, 13))
        } else if index == 2 {
            Some((322, 96, 157, 13))
        } else if index == 3 {
            Some((322, 110, 157, 13))
        } else {
            None
        },
        MenuSection::TestRoutine => if index == 0 {
            Some((482, 68, 155, 13))
        } else if index == 1 {
            Some((482, 82, 155, 13))
        } else {
            None
        },
        MenuSection::TargetProfile => if index == 0 {
            Some((1, 144, 211, 13))
        } else if index == 1 {
            Some((1, 158, 211, 13))
        } else if index == 2 {
            Some((1, 172, 211, 13))
        } else {
            None
        },
        MenuSection::SpectralProfile => if index == 0 {
            Some((215, 144, 211, 13))
        } else if index == 1 {
            Some((215, 158, 211, 13))
        } else {
            None
        },
        MenuSection::TargetSelect => if index == 0 {
            Some((429, 144, 208, 13))
        } else if index == 1 {
            Some((429, 158, 208, 13))
        } else if index == 2 {
            Some((429, 172, 208, 13))
        } else {
            None
        },
    }
}

/// Inverts the highlight bar of the selected option; an index with no bar
/// leaves the frame as it was.
pub fn invert_selection(fb: &mut Framebuffer, section: MenuSection, index: usize)
    requires
        old(fb).wf(),
    ensures
        match selection_rect(section, index as int) {
            Some((x, y, w, h)) => final(fb).inverted_in(
                *old(fb),
                x as int,
                y as int,
                w as int,
                h as int,
            ),
            None => *final(fb) == *old(fb),
        },
{
    let rect = match section {
        MenuSection::SystemMode => match index {
            0 => (1, 68, 158, 13),
            1 => (1, 82, 158, 13),
            2 => (1, 96, 157, 13),
            _ => return ,
        },
        MenuSection::WeaponStatus => match index {
            0 => (162, 68, 157, 13),
            1 => (162, 82, 157, 13),
            _ => return ,
        },
        MenuSection::IffStatus => match index {
            0 => (322, 68, 157, 13),
            1 => (322, 82, 157, 13),
            2 => (322, 96, 157, 13),
            3 => (322, 110, 157, 13),
            _ => return ,
        },
        MenuSection::TestRoutine => match index {
            0 => (482, 68, 155, 13),
            1 => (482, 82, 155, 13),
            _ => return ,
        },
        MenuSection::TargetProfile => match index {
            0 => (1, 144, 211, 13),
            1 => (1, 158, 211, 13),
            2 => (1, 172, 211, 13),
            _ => return ,
        },
        MenuSection::SpectralProfile => match index {
            0 => (215, 144, 211, 13),
            1 => (215, 158, 211, 13),
            _ => return ,
        },
        MenuSection::TargetSelect => match index {
            0 => (429, 144, 208, 13),
            1 => (429, 158, 208, 13),
            2 => (429, 172, 208, 13),
            _ => return ,
        },
    };
    fb.invert_rect(rect.0, rect.1, rect.2, rect.3);
}

/// The pixels of a vertical gauge frame whose right rail is at `x + 20`:
/// a short tick at the top, the rail from `y_top` to `y_bot`, a full-width
/// base, long ticks every 16 pixels up from the base (on or below the top),
/// and short ticks halfway between them (strictly below the top).
pub open spec fn gauge_frame_pixel(a: int, b: int, x: int, y_top: int, y_bot: int) -> bool {
    ||| b == y_top && x + 12 <= a <= x + 20
    ||| a == x + 20 && min(y_top, y_bot) <= b <= max(y_top, y_bot)
    ||| b == y_bot && x <= a <= x + 20
    ||| (y_bot - b) % 16 == 0 && y_top <= b < y_bot && x + 12 <= a <= x + 20
    ||| (y_bot - b) % 16 == 8 && y_top < b < y_bot && x + 16 <= a <= x + 20
}

/// Draws a gauge frame with its tick marks.
pub fn draw_gauge_frame(fb: &mut Framebuffer, x_left: i32, y_top: i32, y_bot: i32)
    requires
        old(fb).wf(),
        x_left + 20 <= i32::MAX,
        y_top >= i32::MIN + 15,
        y_bot >= i32::MIN + 8,
    ensures
        final(fb).wf(),
        forall|a: int, b: int|
            on_canvas(a, b) ==> #[trigger] final(fb).lit(a, b) == (old(fb).lit(a, b)
                || gauge_frame_pixel(a, b, x_left as int, y_top as int, y_bot as int)),
{
    let ghost x = x_left as int;
    let ghost s0 = *fb;
    fb.line(x_left + 12, y_top, x_left + 20, y_top);
    proof {
        lemma_drawn_row(s0, *fb, x + 12, x + 20, y_top as int);
    }
    let ghost s1 = *fb;
    fb.line(x_left + 20, y_top, x_left + 20, y_bot);
    proof {
        lemma_drawn_column(s1, *fb, x + 20, y_top as int, y_bot as int);
    }
    let ghost s2 = *fb;
    fb.line(x_left, y_bot, x_left + 20, y_bot);
    proof {
        lemma_drawn_row(s2, *fb, x, x + 20, y_bot as int);
    }
    let mut y = y_bot;
    while y > y_top
        invariant
            fb.wf(),
            x == x_left,
            x_left + 20 <= i32::MAX,
            y_top >= i32::MIN + 15,
            y <= y_bot,
            (y_bot - y) % 16 == 0,
            forall|a: int, b: int|
                on_canvas(a, b) ==> #[trigger] fb.lit(a, b) == (old(fb).lit(a, b) || {
                    ||| b == y_top && x + 12 <= a <= x + 20
                    ||| a == x + 20 && min(y_top as int, y_bot as int) <= b <= max(
                        y_top as int,
                        y_bot as int,
                    )
                    ||| b == y_bot && x <= a <= x + 20
                    ||| (y_bot - b) % 16 == 0 && y_top <= b < y_bot && b >= y && x + 12 <= a <= x
                        + 20
                }),
        decreases y - y_top + 16,
    {
        y = y - 16;
        if y >= y_top {
            let ghost before = *fb;
            fb.line(x_left + 12, y, x_left + 20, y);
            proof {
                lemma_drawn_row(before, *fb, x + 12, x + 20, y as int);
            }
        }
    }
    y = y_bot - 8;
    while y > y_top
        invariant
            fb.wf(),
            x == x_left,
            x_left + 20 <= i32::MAX,
            y_top >= i32::MIN + 15,
            y <= y_bot - 8,
            (y_bot - y) % 16 == 8,
            forall|a: int, b: int|
                on_canvas(a, b) ==> #[trigger] fb.lit(a, b) == (old(fb).lit(a, b) || {
                    ||| b == y_top && x + 12 <= a <= x + 20
                    ||| a == x + 20 && min(y_top as int, y_bot as int) <= b <= max(
                        y_top as int,
                        y_bot as int,
                    )
                    ||| b == y_bot && x <= a <= x + 20
                    ||| (y_bot - b) % 16 == 0 && y_top <= b < y_bot && x + 12 <= a <= x + 20
                    ||| (y_bot - b) % 16 == 8 && y_top < b < y_bot && b > y && x + 16 <= a <= x
                        + 20
                }),
        decreases y - y_top + 16,
    {
        let ghost before = *fb;
        fb.line(x_left + 16, y, x_left + 20, y);
        proof {
            lemma_drawn_row(before, *fb, x + 16, x + 20, y as int);
        }
        y = y - 16;
    }
}


const SECTION_SCALE: i32 = 1;

const HEADER_SCALE: i32 = 2;

const BIG_SCALE: i32 = 3;

/// A one-line label at the section scale.
pub open spec fn label_ops(font: Seq<[u8; 8]>, s: Seq<char>, x: int, y: int) -> Seq<Op> {
    text_ops(font, s, x, y, 1)
}

/// A letter at scale 2 centred on `(cx, cy)` inside a circle of radius 14.
pub open spec fn circled_letter_ops(font: Seq<[u8; 8]>, ch: char, cx: int, cy: int) -> Seq<Op> {
    char_ops(font, ch, cx - 8, cy - 8, 2).push(Op::Circle(cx, cy, 14))
}

/// The header: the title, the system name under it, the active sentry's
/// circled unit letter at both ends, and the rule beneath.
pub open spec fn header_ops(m: AppModel, font: Seq<[u8; 8]>) -> Seq<Op> {
    let mark = spec_sentry_mark(m.active().id);
    let ops = Seq::<Op>::empty();
    let ops = ops + text_ops(font, "UA 571-C"@, 256, 2, 2);
    let ops = ops + label_ops(font, "REMOTE SENTRY WEAPON SYSTEM"@, 212, 20);
    let ops = ops + circled_letter_ops(font, mark, 18, 17);
    let ops = ops + circled_letter_ops(font, mark, 622, 17);
    ops.push(Op::Line(0, 35, 639, 35))
}

/// The highlight of option `index` in `section`, when it has one.
pub open spec fn selection_ops(section: MenuSection, index: int) -> Seq<Op> {
    match selection_rect(section, index) {
        Some((x, y, w, h)) => seq![Op::Invert(x as int, y as int, w as int, h as int)],
        None => Seq::empty(),
    }
}

/// The Options panel: the fixed layout, the focused section's frame
/// inverted, then the selected row of every section inverted.
pub open spec fn options_ops(m: AppModel, font: Seq<[u8; 8]>) -> Seq<Op> {
    let o = m.active().options;
    let f = section_frame(o.focus);
    let ops = options_top_ops(font) + options_rows_ops(font) + options_low_ops(font);
    let ops = ops.push(Op::Invert(f.0 as int, f.1 as int, f.2 as int, f.3 as int));
    let ops = ops + selection_ops(MenuSection::SystemMode, o.system_mode.spec_index());
    let ops = ops + selection_ops(MenuSection::WeaponStatus, o.weapon_status.spec_index());
    let ops = ops + selection_ops(MenuSection::IffStatus, o.iff_status.spec_index());
    let ops = ops + selection_ops(MenuSection::TestRoutine, o.test_routine.spec_index());
    let ops = ops + selection_ops(MenuSection::TargetProfile, o.target_profile.spec_index());
    let ops = ops + selection_ops(MenuSection::SpectralProfile, o.spectral_profile.spec_index());
    ops + selection_ops(MenuSection::TargetSelect, o.target_select.spec_index())
}

/// Rust's `v / 2` on a signed integer: the quotient rounded toward zero.
pub open spec fn half_toward_zero(v: int) -> int {
    if v >= 0 {
        v / 2
    } else {
        -((-v) / 2)
    }
}

/// The box around a value of `len` characters at scale `sc`: its width and
/// height (at least three cells wide, plus the padding on both sides) and
/// where the centred text starts.
pub open spec fn boxed_layout(len: int, box_x: int, box_y: int, sc: int, pad_x: int, pad_y: int) -> (
    int,
    int,
    int,
    int,
) {
    let tw = len * 8 * sc;
    let th = 8 * sc;
    let inner_w = if tw > 3 * 8 * sc {
        tw
    } else {
        3 * 8 * sc
    };
    let w = inner_w + pad_x * 2;
    let h = th + pad_y * 2;
    (w, h, box_x + half_toward_zero(w - tw), box_y + half_toward_zero(h - th))
}

/// Every quantity of the boxed layout fits the pixel coordinates.
pub open spec fn boxed_fits(len: int, box_x: int, box_y: int, scale: i32, pad_x: int, pad_y: int) -> bool {
    let sc = norm_scale(scale);
    let (w, h, tx, ty) = boxed_layout(len, box_x, box_y, sc, pad_x, pad_y);
    &&& len * 8 * sc <= i32::MAX
    &&& 3 * 8 * sc <= i32::MAX
    &&& fits_i32(pad_x * 2)
    &&& fits_i32(pad_y * 2)
    &&& fits_i32(w)
    &&& fits_i32(h)
    &&& fits_i32(w - len * 8 * sc)
    &&& fits_i32(h - 8 * sc)
    &&& fits_i32(tx)
    &&& fits_i32(ty)
    &&& (w <= 0 || h <= 0 || (box_x + w <= i32::MAX && box_y + h <= i32::MAX))
    &&& tx + 8 * sc * len <= i32::MAX
    &&& ty + 8 * sc <= i32::MAX
}

/// A value drawn centred in a box: the outline, then the text.
pub open spec fn boxed_value_ops(
    font: Seq<[u8; 8]>,
    s: Seq<char>,
    box_x: int,
    box_y: int,
    sc: int,
    pad_x: int,
    pad_y: int,
) -> Seq<Op> {
    let (w, h, tx, ty) = boxed_layout(s.len() as int, box_x, box_y, sc, pad_x, pad_y);
    Seq::<Op>::empty().push(Op::Outline(box_x, box_y, w, h)) + text_ops(font, s, tx, ty, sc)
}

/// How many of a gauge's `span` pixels are filled at `level` out of `full`:
/// the fraction, held between 0 and 1, of the span rounded to the nearest
/// pixel with halves rounded up. Nothing fills when the span or `full` is
/// not positive.
pub open spec fn gauge_fill(span: int, level: int, full: int) -> int {
    if span <= 0 || full <= 0 {
        0
    } else {
        let l = if level < full {
            level
        } else {
            full
        };
        (2 * span * l + full) / (2 * full)
    }
}

/// A gauge filled from its base at `y_bot` up toward `y_top`.
pub open spec fn gauge_fill_ops(x: int, y_top: int, y_bot: int, width: int, level: int, full: int) -> Seq<
    Op,
> {
    let filled = gauge_fill(y_bot - y_top, level, full);
    if filled > 0 {
        seq![Op::Fill(x, y_bot - filled, width, filled, true)]
    } else {
        Seq::empty()
    }
}

/// The weapon state shown under the gauges.
pub open spec fn armed_word(s: Sentry) -> Seq<char> {
    match s.options.weapon_status {
        WeaponStatus::Safe => "SAFE"@,
        WeaponStatus::Armed => "ARMED"@,
    }
}

/// The CRITICAL warning after `ops`: only while CRITICAL, its text and three
/// nested frames, the outer frame inverted while the blink is lit.
pub open spec fn critical_ops(font: Seq<[u8; 8]>, f: FireTelemetry, ops: Seq<Op>) -> Seq<Op> {
    if f.critical {
        let ops = ops + label_ops(font, "CRITICAL"@, 25, 118);
        let ops = ops.push(Op::Outline(6, 101, 106, 44));
        let ops = ops.push(Op::Outline(12, 107, 94, 32));
        let ops = ops.push(Op::Outline(18, 113, 82, 20));
        if f.critical_blink {
            ops.push(Op::Invert(6, 101, 106, 44))
        } else {
            ops
        }
    } else {
        ops
    }
}

/// The Fire panel's readouts: rounds remaining and time at full rate in
/// boxes, the gauge captions and the two empty gauge frames.
pub open spec fn fire_readouts_ops(f: FireTelemetry, font: Seq<[u8; 8]>) -> Seq<Op> {
    let ops = Seq::<Op>::empty();
    let ops = ops + label_ops(font, "ROUNDS"@, 20, 70);
    let ops = ops + label_ops(font, "REMAINING"@, 20, 84);
    let ops = ops + boxed_value_ops(font, decimal(f.rounds as nat), 170, 68, 2, 10, 8);
    let ops = ops + label_ops(font, "TIME AT 100%"@, 6, 150);
    let ops = ops + label_ops(font, "(SECS)"@, 30, 168);
    let ops = ops + boxed_value_ops(font, f.spec_time_display(), 160, 144, 2, 10, 8);
    let ops = ops + label_ops(font, "Temp   R(M)"@, 500, 50);
    let ops = ops.push(Op::GaugeFrame(508, 68, 180));
    ops.push(Op::GaugeFrame(576, 68, 180))
}

/// The Fire panel up to its warning: the readouts, then the temperature and
/// R(M) gauges filled to their levels out of 100.
pub open spec fn fire_gauges_ops(m: AppModel, font: Seq<[u8; 8]>) -> Seq<Op> {
    let f = m.active().fire;
    let ops = fire_readouts_ops(f, font);
    let ops = ops + gauge_fill_ops(508, 68, 180, 20, f.temperature as int, 100);
    ops + gauge_fill_ops(576, 68, 180, 20, f.rm as int, 100)
}

/// The Fire panel: the boxes and gauges, the CRITICAL warning, and the
/// unit's name with its weapon state.
pub open spec fn fire_ops(m: AppModel, font: Seq<[u8; 8]>) -> Seq<Op> {
    let s = m.active();
    critical_ops(font, s.fire, fire_gauges_ops(m, font)) + label_ops(
        font,
        s.spec_label() + "  "@ + armed_word(s),
        20,
        200,
    )
}

/// The footer line: unit, rounds, mode, IFF state, weapon state, the key
/// help, and DEMO while the demo runs.
pub open spec fn status_text(m: AppModel) -> Seq<char> {
    let s = m.active();
    "S"@ + decimal(s.id as nat) + "  "@ + decimal(s.fire.rounds as nat) + "rds  "@
        + s.options.system_mode.spec_label() + "  "@ + s.options.iff_status.spec_label() + "  "@
        + (if s.spec_is_armed() {
        "ARMED"@
    } else {
        "SAFE"@
    }) + "  [1-4] f/o fire  a arm  d demo  q quit  "@ + (if m.demo.active {
        "DEMO"@
    } else {
        ""@
    })
}

/// The status strip: a rule, then the footer line under it.
pub open spec fn status_ops(m: AppModel, font: Seq<[u8; 8]>) -> Seq<Op> {
    Seq::<Op>::empty().push(Op::Line(0, 216, 639, 216)) + label_ops(font, status_text(m), 4, 218)
}

/// How much of the POST progress bar is filled: 200 pixels over the 40 boot
/// ticks, by the ticks already counted down.
pub open spec fn boot_bar_filled(boot_ticks_remaining: u32) -> int {
    let done = if boot_ticks_remaining <= 40 {
        40 - boot_ticks_remaining
    } else {
        0
    };
    200 * done / 40
}

/// The POST splash: maker lines, the big title, the system name, the
/// datalink check, the progress bar and the key prompt.
pub open spec fn boot_ops(m: AppModel, font: Seq<[u8; 8]>) -> Seq<Op> {
    let filled = boot_bar_filled(m.boot_ticks_remaining);
    let ops = Seq::<Op>::empty();
    let ops = ops + label_ops(font, "W-Y COMBINED SYSTEMS"@, 240, 40);
    let ops = ops + label_ops(font, "USCM / HYPERDYNE"@, 256, 54);
    let ops = ops + text_ops(font, "UA 571-C"@, 224, 80, 3);
    let ops = ops + label_ops(font, "REMOTE SENTRY WEAPON SYSTEM"@, 212, 112);
    let ops = ops + label_ops(font, "POST — MICROWAVE DATALINK"@, 224, 140);
    let ops = ops + label_ops(font, "SENTRY-1..4 LINK CHECK .... OK"@, 208, 156);
    let ops = ops.push(Op::Outline(220, 175, 200, 14));
    let ops = if filled > 0 {
        ops.push(Op::Fill(221, 176, filled - 1, 12, true))
    } else {
        ops
    };
    ops + label_ops(font, "PRESS ANY KEY"@, 268, 210)
}

/// The whole scene for a console state: the POST splash during boot;
/// otherwise the header, the Options or Fire panel, and the status strip.
pub open spec fn scene_ops(m: AppModel, font: Seq<[u8; 8]>) -> Seq<Op> {
    match m.screen {
        Screen::Boot => boot_ops(m, font),
        Screen::Options => header_ops(m, font) + options_ops(m, font) + status_ops(m, font),
        Screen::Fire => header_ops(m, font) + fire_ops(m, font) + status_ops(m, font),
    }
}

/// Whether `(a, b)` is lit in the scene drawn on a cleared canvas.
pub open spec fn scene_lit(m: AppModel, font: Seq<[u8; 8]>, a: int, b: int) -> bool {
    on_canvas(a, b) && ops_lit(scene_ops(m, font), false, a, b)
}

/// The fixed Options layout, part `top`: the column headers of the four upper sections and the rules between them.
pub open spec fn options_top_ops(font: Seq<[u8; 8]>) -> Seq<Op> {
    let ops = Seq::<Op>::empty();
    let ops = ops + label_ops(font, "SYSTEM"@, 36, 39);
    let ops = ops + label_ops(font, "MODE"@, 45, 50);
    let ops = ops + label_ops(font, "WEAPON"@, 210, 39);
    let ops = ops + label_ops(font, "STATUS"@, 210, 50);
    let ops = ops + label_ops(font, "IFF"@, 382, 39);
    let ops = ops + label_ops(font, "STATUS"@, 364, 50);
    let ops = ops + label_ops(font, "TEST"@, 536, 39);
    let ops = ops + label_ops(font, "ROUTINE"@, 518, 50);
    let ops = ops.push(Op::Line(0, 66, 639, 66));
    let ops = ops.push(Op::Line(160, 35, 160, 66));
    let ops = ops.push(Op::Line(320, 35, 320, 66));
    let ops = ops.push(Op::Line(480, 35, 480, 66));
    let ops = ops.push(Op::Line(160, 66, 160, 124));
    let ops = ops.push(Op::Line(320, 66, 320, 124));
    let ops = ops.push(Op::Line(480, 66, 480, 124));
    ops
}

/// The fixed Options layout, part `rows`: the option rows of the upper sections and the rules around the profile strip.
pub open spec fn options_rows_ops(font: Seq<[u8; 8]>) -> Seq<Op> {
    let ops = Seq::<Op>::empty();
    let ops = ops + label_ops(font, "AUTO-REMOTE"@, 14, 69);
    let ops = ops + label_ops(font, "MAN-OVERRIDE"@, 14, 83);
    let ops = ops + label_ops(font, "SEMI-AUTO"@, 14, 97);
    let ops = ops + label_ops(font, "SAFE"@, 216, 69);
    let ops = ops + label_ops(font, "ARMED"@, 216, 83);
    let ops = ops + label_ops(font, "SEARCH"@, 348, 69);
    let ops = ops + label_ops(font, "TEST"@, 348, 83);
    let ops = ops + label_ops(font, "ENGAGED"@, 348, 97);
    let ops = ops + label_ops(font, "INTERROGATE"@, 348, 111);
    let ops = ops + label_ops(font, "AUTO"@, 504, 69);
    let ops = ops + label_ops(font, "SELECTIVE"@, 504, 83);
    let ops = ops.push(Op::Line(0, 124, 639, 124));
    let ops = ops.push(Op::Line(213, 124, 213, 142));
    let ops = ops.push(Op::Line(427, 124, 427, 142));
    let ops = ops.push(Op::Line(0, 142, 639, 142));
    ops
}

/// The fixed Options layout, part `low`: the profile strip's headers, its option rows and the rules that close the panel.
pub open spec fn options_low_ops(font: Seq<[u8; 8]>) -> Seq<Op> {
    let ops = Seq::<Op>::empty();
    let ops = ops + label_ops(font, "TARGET PROFILE"@, 40, 128);
    let ops = ops + label_ops(font, "SPECTRAL PROFILE"@, 240, 128);
    let ops = ops + label_ops(font, "TARGET SELECT"@, 466, 128);
    let ops = ops + label_ops(font, "SOFT"@, 72, 145);
    let ops = ops + label_ops(font, "SEMI"@, 72, 159);
    let ops = ops + label_ops(font, "HARD"@, 72, 173);
    let ops = ops + label_ops(font, "BIO"@, 291, 145);
    let ops = ops + label_ops(font, "INERT"@, 291, 159);
    let ops = ops + label_ops(font, "MULTI SPEC"@, 483, 145);
    let ops = ops + label_ops(font, "INFRA RED"@, 483, 159);
    let ops = ops + label_ops(font, "UV"@, 483, 173);
    let ops = ops.push(Op::Line(0, 212, 639, 212));
    let ops = ops.push(Op::Line(213, 142, 213, 212));
    let ops = ops.push(Op::Line(427, 142, 427, 212));
    ops
}

fn draw_options_top(fb: &mut Framebuffer, font: &Font)
    requires
        old(fb).wf(),
    ensures
        final(fb).paints(*old(fb), options_top_ops(font@)),
{
    let ghost base = *fb;
    proof {
        lemma_paints_empty(base);
        reveal_strlit("IFF");
        reveal_strlit("MODE");
        reveal_strlit("ROUTINE");
        reveal_strlit("STATUS");
        reveal_strlit("SYSTEM");
        reveal_strlit("TEST");
        reveal_strlit("WEAPON");
    }
    let right: i32 = WIDTH as i32 - 1;
    let g = Ghost(Seq::<Op>::empty());
    let g = then_text(fb, Ghost(base), g, "SYSTEM", 36, 39, SECTION_SCALE, font);
    let g = then_text(fb, Ghost(base), g, "MODE", 45, 50, SECTION_SCALE, font);
    let g = then_text(fb, Ghost(base), g, "WEAPON", 210, 39, SECTION_SCALE, font);
    let g = then_text(fb, Ghost(base), g, "STATUS", 210, 50, SECTION_SCALE, font);
    let g = then_text(fb, Ghost(base), g, "IFF", 382, 39, SECTION_SCALE, font);
    let g = then_text(fb, Ghost(base), g, "STATUS", 364, 50, SECTION_SCALE, font);
    let g = then_text(fb, Ghost(base), g, "TEST", 536, 39, SECTION_SCALE, font);
    let g = then_text(fb, Ghost(base), g, "ROUTINE", 518, 50, SECTION_SCALE, font);
    let g = then_line(fb, Ghost(base), g, 0, 66, right, 66);
    let g = then_line(fb, Ghost(base), g, 160, 35, 160, 66);
    let g = then_line(fb, Ghost(base), g, 320, 35, 320, 66);
    let g = then_line(fb, Ghost(base), g, 480, 35, 480, 66);
    let g = then_line(fb, Ghost(base), g, 160, 66, 160, 124);
    let g = then_line(fb, Ghost(base), g, 320, 66, 320, 124);
    let g = then_line(fb, Ghost(base), g, 480, 66, 480, 124);
}

fn draw_options_rows(fb: &mut Framebuffer, font: &Font)
    requires
        old(fb).wf(),
    ensures
        final(fb).paints(*old(fb), options_rows_ops(font@)),
{
    let ghost base = *fb;
    proof {
        lemma_paints_empty(base);
        reveal_strlit("ARMED");
        reveal_strlit("AUTO");
        reveal_strlit("AUTO-REMOTE");
        reveal_strlit("ENGAGED");
        reveal_strlit("INTERROGATE");
        reveal_strlit("MAN-OVERRIDE");
        reveal_strlit("SAFE");
        reveal_strlit("SEARCH");
        reveal_strlit("SELECTIVE");
        reveal_strlit("SEMI-AUTO");
        reveal_strlit("TEST");
    }
    let right: i32 = WIDTH as i32 - 1;
    let g = Ghost(Seq::<Op>::empty());
    let g = then_text(fb, Ghost(base), g, "AUTO-REMOTE", 14, 69, SECTION_SCALE, font);
    let g = then_text(fb, Ghost(base), g, "MAN-OVERRIDE", 14, 83, SECTION_SCALE, font);
    let g = then_text(fb, Ghost(base), g, "SEMI-AUTO", 14, 97, SECTION_SCALE, font);
    let g = then_text(fb, Ghost(base), g, "SAFE", 216, 69, SECTION_SCALE, font);
    let g = then_text(fb, Ghost(base), g, "ARMED", 216, 83, SECTION_SCALE, font);
    let g = then_text(fb, Ghost(base), g, "SEARCH", 348, 69, SECTION_SCALE, font);
    let g = then_text(fb, Ghost(base), g, "TEST", 348, 83, SECTION_SCALE, font);
    let g = then_text(fb, Ghost(base), g, "ENGAGED", 348, 97, SECTION_SCALE, font);
    let g = then_text(fb, Ghost(base), g, "INTERROGATE", 348, 111, SECTION_SCALE, font);
    let g = then_text(fb, Ghost(base), g, "AUTO", 504, 69, SECTION_SCALE, font);
    let g = then_text(fb, Ghost(base), g, "SELECTIVE", 504, 83, SECTION_SCALE, font);
    let g = then_line(fb, Ghost(base), g, 0, 124, right, 124);
    let g = then_line(fb, Ghost(base), g, 213, 124, 213, 142);
    let g = then_line(fb, Ghost(base), g, 427, 124, 427, 142);
    let g = then_line(fb, Ghost(base), g, 0, 142, right, 142);
}

fn draw_options_low(fb: &mut Framebuffer, font: &Font)
    requires
        old(fb).wf(),
    ensures
        final(fb).paints(*old(fb), options_low_ops(font@)),
{
    let ghost base = *fb;
    proof {
        lemma_paints_empty(base);
        reveal_strlit("BIO");
        reveal_strlit("HARD");
        reveal_strlit("INERT");
        reveal_strlit("INFRA RED");
        reveal_strlit("MULTI SPEC");
        reveal_strlit("SEMI");
        reveal_strlit("SOFT");
        reveal_strlit("SPECTRAL PROFILE");
        reveal_strlit("TARGET PROFILE");
        reveal_strlit("TARGET SELECT");
        reveal_strlit("UV");
    }
    let right: i32 = WIDTH as i32 - 1;
    let g = Ghost(Seq::<Op>::empty());
    let g = then_text(fb, Ghost(base), g, "TARGET PROFILE", 40, 128, SECTION_SCALE, font);
    let g = then_text(fb, Ghost(base), g, "SPECTRAL PROFILE", 240, 128, SECTION_SCALE, font);
    let g = then_text(fb, Ghost(base), g, "TARGET SELECT", 466, 128, SECTION_SCALE, font);
    let g = then_text(fb, Ghost(base), g, "SOFT", 72, 145, SECTION_SCALE, font);
    let g = then_text(fb, Ghost(base), g, "SEMI", 72, 159, SECTION_SCALE, font);
    let g = then_text(fb, Ghost(base), g, "HARD", 72, 173, SECTION_SCALE, font);
    let g = then_text(fb, Ghost(base), g, "BIO", 291, 145, SECTION_SCALE, font);
    let g = then_text(fb, Ghost(base), g, "INERT", 291, 159, SECTION_SCALE, font);
    let g = then_text(fb, Ghost(base), g, "MULTI SPEC", 483, 145, SECTION_SCALE, font);
    let g = then_text(fb, Ghost(base), g, "INFRA RED", 483, 159, SECTION_SCALE, font);
    let g = then_text(fb, Ghost(base), g, "UV", 483, 173, SECTION_SCALE, font);
    let g = then_line(fb, Ghost(base), g, 0, 212, right, 212);
    let g = then_line(fb, Ghost(base), g, 213, 142, 213, 212);
    let g = then_line(fb, Ghost(base), g, 427, 142, 427, 212);
}


/// Draws `ch` at scale 2 centred on `(cx, cy)` inside a circle of radius 14.
pub fn draw_circled_letter(fb: &mut Framebuffer, ch: char, cx: i32, cy: i32, font: &Font)
    requires
        old(fb).wf(),
        fits_i32(cx - 14),
        fits_i32(cx + 14),
        fits_i32(cy - 14),
        fits_i32(cy + 14),
    ensures
        final(fb).paints(*old(fb), circled_letter_ops(font@, ch, cx as int, cy as int)),
{
    let ghost base = *fb;
    let scale: i32 = 2;
    // 8×8 glyph at scale 2 → 16×16 box; centre it on the circle midpoint.
    let glyph = 8 * scale;
    let gx = cx - glyph / 2;
    let gy = cy - glyph / 2;
    fb.draw_char(ch, gx, gy, scale, font);
    let _ = then_circle(fb, Ghost(base), Ghost(char_ops(font@, ch, gx as int, gy as int, 2)), cx, cy, 14);
}

fn then_circled_letter(
    fb: &mut Framebuffer,
    base: Ghost<Framebuffer>,
    ops: Ghost<Seq<Op>>,
    ch: char,
    cx: i32,
    cy: i32,
    font: &Font,
) -> (r: Ghost<Seq<Op>>)
    requires
        old(fb).paints(base@, ops@),
        fits_i32(cx - 14),
        fits_i32(cx + 14),
        fits_i32(cy - 14),
        fits_i32(cy + 14),
    ensures
        r@ == ops@ + circled_letter_ops(font@, ch, cx as int, cy as int),
        final(fb).paints(base@, r@),
{
    let ghost mid = *fb;
    draw_circled_letter(fb, ch, cx, cy, font);
    proof {
        lemma_paints_concat(base@, mid, *fb, ops@, circled_letter_ops(font@, ch, cx as int, cy as int));
    }
    Ghost(ops@ + circled_letter_ops(font@, ch, cx as int, cy as int))
}

/// Draws the header: the title, the system name, the active sentry's
/// circled unit letter (1=A … 4=D) at both ends, and the rule beneath.
pub fn draw_header(state: &AppState, fb: &mut Framebuffer, font: &Font)
    requires
        state@.wf(),
        old(fb).wf(),
    ensures
        final(fb).paints(*old(fb), header_ops(state@, font@)),
{
    let ghost base = *fb;
    proof {
        lemma_paints_empty(base);
        reveal_strlit("UA 571-C");
        reveal_strlit("REMOTE SENTRY WEAPON SYSTEM");
    }
    let g = Ghost(Seq::<Op>::empty());
    let title = "UA 571-C";
    let tw = Framebuffer::text_width(title, HEADER_SCALE);
    let g = then_text(fb, Ghost(base), g, title, (WIDTH as i32 - tw) / 2, 2, HEADER_SCALE, font);
    let sub = "REMOTE SENTRY WEAPON SYSTEM";
    let sw = Framebuffer::text_width(sub, SECTION_SCALE);
    let g = then_text(fb, Ghost(base), g, sub, (WIDTH as i32 - sw) / 2, 20, SECTION_SCALE, font);
    let mark = sentry_mark(state.active_sentry().id);
    let g = then_circled_letter(fb, Ghost(base), g, mark, 18, 17, font);
    let g = then_circled_letter(fb, Ghost(base), g, mark, WIDTH as i32 - 18, 17, font);
    let _ = then_line(fb, Ghost(base), g, 0, 35, WIDTH as i32 - 1, 35);
}

fn then_selection(
    fb: &mut Framebuffer,
    base: Ghost<Framebuffer>,
    ops: Ghost<Seq<Op>>,
    section: MenuSection,
    index: usize,
) -> (r: Ghost<Seq<Op>>)
    requires
        old(fb).paints(base@, ops@),
    ensures
        r@ == ops@ + selection_ops(section, index as int),
        final(fb).paints(base@, r@),
{
    let ghost mid = *fb;
    invert_selection(fb, section, index);
    proof {
        lemma_paints_empty(mid);
        match selection_rect(section, index as int) {
            Some((x, y, w, h)) => {
                let op = Op::Invert(x as int, y as int, w as int, h as int);
                lemma_paints_step(mid, mid, *fb, Seq::empty(), op);
                assert(Seq::<Op>::empty().push(op) =~= selection_ops(section, index as int));
            },
            None => {},
        }
        lemma_paints_concat(base@, mid, *fb, ops@, selection_ops(section, index as int));
    }
    Ghost(ops@ + selection_ops(section, index as int))
}

/// Draws the Options panel: the fixed layout, the focused section's frame
/// inverted, and the selected row of every section inverted.
pub fn draw_options(state: &AppState, fb: &mut Framebuffer, font: &Font)
    requires
        state@.wf(),
        old(fb).wf(),
    ensures
        final(fb).paints(*old(fb), options_ops(state@, font@)),
{
    let ghost base = *fb;
    draw_options_top(fb, font);
    let ghost s1 = *fb;
    draw_options_rows(fb, font);
    proof {
        lemma_paints_concat(base, s1, *fb, options_top_ops(font@), options_rows_ops(font@));
    }
    let ghost s2 = *fb;
    draw_options_low(fb, font);
    proof {
        lemma_paints_concat(
            base,
            s2,
            *fb,
            options_top_ops(font@) + options_rows_ops(font@),
            options_low_ops(font@),
        );
    }
    let g = Ghost(options_top_ops(font@) + options_rows_ops(font@) + options_low_ops(font@));
    let opts = state.options();
    // Focus section header invert (menu strip).
    let g = match menu_section_rect(opts.focus) {
        Some((x, y, w, h)) => then_invert(fb, Ghost(base), g, x, y, w, h),
        None => g,
    };
    // Selected option row invert within each column.
    let g = then_selection(fb, Ghost(base), g, MenuSection::SystemMode, opts.system_mode.index());
    let g = then_selection(fb, Ghost(base), g, MenuSection::WeaponStatus, opts.weapon_status.index());
    let g = then_selection(fb, Ghost(base), g, MenuSection::IffStatus, opts.iff_status.index());
    let g = then_selection(fb, Ghost(base), g, MenuSection::TestRoutine, opts.test_routine.index());
    let g = then_selection(
        fb,
        Ghost(base),
        g,
        MenuSection::TargetProfile,
        opts.target_profile.index(),
    );
    let g = then_selection(
        fb,
        Ghost(base),
        g,
        MenuSection::SpectralProfile,
        opts.spectral_profile.index(),
    );
    let _ = then_selection(
        fb,
        Ghost(base),
        g,
        MenuSection::TargetSelect,
        opts.target_select.index(),
    );
}

/// Draws `text` centred in a box padded by `pad_x` / `pad_y`; the box is at
/// least three character cells wide.
pub fn draw_boxed_value(
    fb: &mut Framebuffer,
    text: &str,
    box_x: i32,
    box_y: i32,
    scale: i32,
    pad_x: i32,
    pad_y: i32,
    font: &Font,
)
    requires
        old(fb).wf(),
        boxed_fits(text@.len() as int, box_x as int, box_y as int, scale, pad_x as int, pad_y as int),
    ensures
        final(fb).paints(
            *old(fb),
            boxed_value_ops(
                font@,
                text@,
                box_x as int,
                box_y as int,
                norm_scale(scale),
                pad_x as int,
                pad_y as int,
            ),
        ),
{
    let ghost base = *fb;
    proof {
        lemma_paints_empty(base);
    }
    let scale: i32 = if scale < 1 {
        1
    } else {
        scale
    };
    let tw = Framebuffer::text_width(text, scale);
    let th = 8 * scale;
    // Minimum width so single/double digit values still look like a console box.
    let inner_w = if tw > 3 * 8 * scale {
        tw
    } else {
        3 * 8 * scale
    };
    let w = inner_w + pad_x * 2;
    let h = th + pad_y * 2;
    let g = then_outline(fb, Ghost(base), Ghost(Seq::<Op>::empty()), box_x, box_y, w, h);
    let tx = box_x + (w - tw) / 2;
    let ty = box_y + (h - th) / 2;
    let _ = then_text(fb, Ghost(base), g, text, tx, ty, scale, font);
}

fn then_boxed_value(
    fb: &mut Framebuffer,
    base: Ghost<Framebuffer>,
    ops: Ghost<Seq<Op>>,
    text: &str,
    box_x: i32,
    box_y: i32,
    scale: i32,
    pad_x: i32,
    pad_y: i32,
    font: &Font,
) -> (r: Ghost<Seq<Op>>)
    requires
        old(fb).paints(base@, ops@),
        scale >= 1,
        boxed_fits(text@.len() as int, box_x as int, box_y as int, scale, pad_x as int, pad_y as int),
    ensures
        r@ == ops@ + boxed_value_ops(
            font@,
            text@,
            box_x as int,
            box_y as int,
            scale as int,
            pad_x as int,
            pad_y as int,
        ),
        final(fb).paints(base@, r@),
{
    let ghost mid = *fb;
    let ghost b = boxed_value_ops(
        font@,
        text@,
        box_x as int,
        box_y as int,
        scale as int,
        pad_x as int,
        pad_y as int,
    );
    draw_boxed_value(fb, text, box_x, box_y, scale, pad_x, pad_y, font);
    proof {
        lemma_paints_concat(base@, mid, *fb, ops@, b);
    }
    Ghost(ops@ + b)
}

fn then_gauge_frame(
    fb: &mut Framebuffer,
    base: Ghost<Framebuffer>,
    ops: Ghost<Seq<Op>>,
    x_left: i32,
    y_top: i32,
    y_bot: i32,
) -> (r: Ghost<Seq<Op>>)
    requires
        old(fb).paints(base@, ops@),
        x_left + 20 <= i32::MAX,
        y_top >= i32::MIN + 15,
        y_bot >= i32::MIN + 8,
    ensures
        r@ == ops@.push(Op::GaugeFrame(x_left as int, y_top as int, y_bot as int)),
        final(fb).paints(base@, r@),
{
    let ghost mid = *fb;
    draw_gauge_frame(fb, x_left, y_top, y_bot);
    proof {
        lemma_paints_step(
            base@,
            mid,
            *fb,
            ops@,
            Op::GaugeFrame(x_left as int, y_top as int, y_bot as int),
        );
    }
    Ghost(ops@.push(Op::GaugeFrame(x_left as int, y_top as int, y_bot as int)))
}

proof fn lemma_gauge_fill_bounds(span: int, level: int, full: int)
    requires
        span > 0,
        full > 0,
        0 <= level <= full,
    ensures
        0 <= (2 * span * level + full) / (2 * full) <= span,
{
    let q = (2 * span * level + full) / (2 * full);
    let r = (2 * span * level + full) % (2 * full);
    assert(2 * span * level + full == q * (2 * full) + r && 0 <= r < 2 * full) by (nonlinear_arith)
        requires
            full > 0,
            q == (2 * span * level + full) / (2 * full),
            r == (2 * span * level + full) % (2 * full),
    ;
    assert(2 * span * level <= 2 * span * full) by (nonlinear_arith)
        requires
            span > 0,
            level <= full,
    ;
    assert(q <= span) by (nonlinear_arith)
        requires
            full > 0,
            q * (2 * full) <= 2 * span * full + full,
    ;
    assert(0 <= q) by (nonlinear_arith)
        requires
            full > 0,
            span > 0,
            level >= 0,
            q * (2 * full) + r == 2 * span * level + full,
            r < 2 * full,
    ;
}

/// Fills a vertical gauge from its base at `y_bot` up toward `y_top` to
/// `level` out of `full`: the fraction, held between 0 and 1, of the span
/// rounded to the nearest pixel (halves up), `width` pixels wide.
pub fn fill_gauge_bottom_up(
    fb: &mut Framebuffer,
    x: i32,
    y_top: i32,
    y_bot: i32,
    width: i32,
    level: u32,
    full: u32,
)
    requires
        old(fb).wf(),
        fits_i32(y_bot - y_top),
    ensures
        final(fb).paints(
            *old(fb),
            gauge_fill_ops(x as int, y_top as int, y_bot as int, width as int, level as int, full as int),
        ),
{
    let ghost base = *fb;
    proof {
        lemma_paints_empty(base);
    }
    let span = y_bot - y_top;
    if span <= 0 || full == 0 {
        return;
    }
    let l: u32 = if level < full {
        level
    } else {
        full
    };
    proof {
        lemma_gauge_fill_bounds(span as int, l as int, full as int);
        assert(2 * span * l <= 2 * 0x8000_0000 * 0x1_0000_0000) by (nonlinear_arith)
            requires
                0 < span <= 0x8000_0000,
                l <= 0x1_0000_0000,
        ;
    }
    let filled_wide: u128 = (2 * (span as u128) * (l as u128) + full as u128) / (2 * full as u128);
    let filled = filled_wide as i32;
    if filled <= 0 {
        return;
    }
    let _ = then_fill(fb, Ghost(base), Ghost(Seq::<Op>::empty()), x, y_bot - filled, width, filled, true);
    assert(Seq::<Op>::empty().push(
        Op::Fill(x as int, y_bot - filled, width as int, filled as int, true),
    ) =~= gauge_fill_ops(x as int, y_top as int, y_bot as int, width as int, level as int, full as int));
}

fn then_gauge_fill(
    fb: &mut Framebuffer,
    base: Ghost<Framebuffer>,
    ops: Ghost<Seq<Op>>,
    x: i32,
    y_top: i32,
    y_bot: i32,
    width: i32,
    level: u32,
    full: u32,
) -> (r: Ghost<Seq<Op>>)
    requires
        old(fb).paints(base@, ops@),
        fits_i32(y_bot - y_top),
    ensures
        r@ == ops@ + gauge_fill_ops(
            x as int,
            y_top as int,
            y_bot as int,
            width as int,
            level as int,
            full as int,
        ),
        final(fb).paints(base@, r@),
{
    let ghost mid = *fb;
    let ghost f = gauge_fill_ops(
        x as int,
        y_top as int,
        y_bot as int,
        width as int,
        level as int,
        full as int,
    );
    fill_gauge_bottom_up(fb, x, y_top, y_bot, width, level, full);
    proof {
        lemma_paints_concat(base@, mid, *fb, ops@, f);
    }
    Ghost(ops@ + f)
}


/// Draws the Fire panel: rounds remaining and time at full rate in boxes,
/// the temperature and R(M) gauges, the CRITICAL warning with its blink, and
/// the unit's name with its weapon state.
#[verifier::rlimit(40)]
pub fn draw_fire(state: &AppState, fb: &mut Framebuffer, font: &Font)
    requires
        state@.wf(),
        old(fb).wf(),
    ensures
        final(fb).paints(*old(fb), fire_ops(state@, font@)),
{
    let ghost base = *fb;
    let s = state.active_sentry();
    let fire = &s.fire;
    proof {
        lemma_paints_empty(base);
        reveal_strlit("ROUNDS");
        reveal_strlit("REMAINING");
        reveal_strlit("TIME AT 100%");
        reveal_strlit("(SECS)");
        reveal_strlit("Temp   R(M)");
        reveal_strlit("CRITICAL");
        reveal_strlit("SAFE");
        reveal_strlit("ARMED");
        reveal_strlit("  ");
        reveal_strlit("SENTRY-");
        reveal_strlit(".");
        lemma_decimal_len(fire.rounds as nat);
        lemma_decimal_len((fire.time_centisecs / 100) as nat);
        lemma_decimal_len((fire.time_centisecs % 100) as nat);
        lemma_decimal_len(s.id as nat);
        assert(fire.time_centisecs / 100 <= 42949672);
        assert(fire.spec_time_display().len() <= 42949672 + 1 + 1 + 101);
    }
    let g = Ghost(Seq::<Op>::empty());
    let g = then_text(fb, Ghost(base), g, "ROUNDS", 20, 70, SECTION_SCALE, font);
    let g = then_text(fb, Ghost(base), g, "REMAINING", 20, 84, SECTION_SCALE, font);
    // Boxes sized to the bitmap font at the header scale.
    let rounds = decimal_string(fire.rounds as u64);
    let g = then_boxed_value(fb, Ghost(base), g, rounds.as_str(), 170, 68, HEADER_SCALE, 10, 8, font);
    let g = then_text(fb, Ghost(base), g, "TIME AT 100%", 6, 150, SECTION_SCALE, font);
    let g = then_text(fb, Ghost(base), g, "(SECS)", 30, 168, SECTION_SCALE, font);
    let time = fire.time_display();
    let g = then_boxed_value(fb, Ghost(base), g, time.as_str(), 160, 144, HEADER_SCALE, 10, 8, font);
    let g = then_text(fb, Ghost(base), g, "Temp   R(M)", 500, 50, SECTION_SCALE, font);
    // Gauge frames: temperature around x = 508..528, R(M) around 576..596.
    let g = then_gauge_frame(fb, Ghost(base), g, 508, 68, 180);
    let g = then_gauge_frame(fb, Ghost(base), g, 576, 68, 180);
    // Fill from the base: both read 0..=100 over the 112-pixel span.
    let g = then_gauge_fill(fb, Ghost(base), g, 508, 68, 180, 20, fire.temperature as u32, 100);
    let g = then_gauge_fill(fb, Ghost(base), g, 576, 68, 180, 20, fire.rm as u32, 100);
    // CRITICAL triple-border invert flash.
    let g = if fire.critical {
        let g = then_text(fb, Ghost(base), g, "CRITICAL", 25, 118, SECTION_SCALE, font);
        let g = then_outline(fb, Ghost(base), g, 6, 101, 106, 44);
        let g = then_outline(fb, Ghost(base), g, 12, 107, 94, 32);
        let g = then_outline(fb, Ghost(base), g, 18, 113, 82, 20);
        if fire.critical_blink {
            then_invert(fb, Ghost(base), g, 6, 101, 106, 44)
        } else {
            g
        }
    } else {
        g
    };
    // Weapon status cue under the gauges.
    let armed = match s.options.weapon_status {
        WeaponStatus::Safe => "SAFE",
        WeaponStatus::Armed => "ARMED",
    };
    let mut line = s.label();
    line.append("  ");
    line.append(armed);
    let _ = then_text(fb, Ghost(base), g, line.as_str(), 20, 200, SECTION_SCALE, font);
}

proof fn lemma_label_lengths(m: AppModel)
    requires
        m.wf(),
    ensures
        m.active().options.system_mode.spec_label().len() <= 12,
        m.active().options.iff_status.spec_label().len() <= 12,
{
    reveal_strlit("AUTO-REMOTE");
    reveal_strlit("MAN-OVERRIDE");
    reveal_strlit("SEMI-AUTO");
    reveal_strlit("SEARCH");
    reveal_strlit("TEST");
    reveal_strlit("ENGAGED");
    reveal_strlit("INTERROGATE");
}

/// Draws the status strip: a rule, then the footer line with the unit, its
/// rounds, mode, IFF and weapon state, the key help, and DEMO while the demo
/// runs.
pub fn draw_status_strip(state: &AppState, fb: &mut Framebuffer, font: &Font)
    requires
        state@.wf(),
        old(fb).wf(),
    ensures
        final(fb).paints(*old(fb), status_ops(state@, font@)),
{
    let ghost base = *fb;
    let y: i32 = 218;
    let s = state.active_sentry();
    proof {
        lemma_paints_empty(base);
        lemma_decimal_len(s.id as nat);
        lemma_decimal_len(s.fire.rounds as nat);
        lemma_label_lengths(state@);
        reveal_strlit("S");
        reveal_strlit("  ");
        reveal_strlit("rds  ");
        reveal_strlit("ARMED");
        reveal_strlit("SAFE");
        reveal_strlit("  [1-4] f/o fire  a arm  d demo  q quit  ");
        reveal_strlit("DEMO");
        reveal_strlit("");
    }
    let g = then_line(fb, Ghost(base), Ghost(Seq::<Op>::empty()), 0, y - 2, WIDTH as i32 - 1, y - 2);
    let demo = if state.demo.is_active() {
        "DEMO"
    } else {
        ""
    };
    let mut line = String::new();
    line.append("S");
    push_decimal(&mut line, s.id as u64);
    line.append("  ");
    push_decimal(&mut line, s.fire.rounds as u64);
    line.append("rds  ");
    line.append(s.options.system_mode.label());
    line.append("  ");
    line.append(s.options.iff_status.label());
    line.append("  ");
    line.append(
        if s.is_armed() {
            "ARMED"
        } else {
            "SAFE"
        },
    );
    line.append("  [1-4] f/o fire  a arm  d demo  q quit  ");
    line.append(demo);
    assert(line@ =~= status_text(state@));
    let _ = then_text(fb, Ghost(base), g, line.as_str(), 4, y, SECTION_SCALE, font);
}

/// Draws the POST splash: maker lines, the big title, the system name, the
/// datalink check, the progress bar filled by the ticks already counted
/// down, and the key prompt.
#[verifier::rlimit(40)]
pub fn draw_boot(state: &AppState, fb: &mut Framebuffer, font: &Font)
    requires
        old(fb).wf(),
    ensures
        final(fb).paints(*old(fb), boot_ops(state@, font@)),
{
    let ghost base = *fb;
    proof {
        lemma_paints_empty(base);
        reveal_strlit("W-Y COMBINED SYSTEMS");
        reveal_strlit("USCM / HYPERDYNE");
        reveal_strlit("UA 571-C");
        reveal_strlit("REMOTE SENTRY WEAPON SYSTEM");
        reveal_strlit("POST — MICROWAVE DATALINK");
        reveal_strlit("SENTRY-1..4 LINK CHECK .... OK");
        reveal_strlit("PRESS ANY KEY");
    }
    let cx = WIDTH as i32 / 2;
    let g = Ghost(Seq::<Op>::empty());
    let g = then_text(fb, Ghost(base), g, "W-Y COMBINED SYSTEMS", cx - 80, 40, SECTION_SCALE, font);
    let g = then_text(fb, Ghost(base), g, "USCM / HYPERDYNE", cx - 64, 54, SECTION_SCALE, font);
    let title = "UA 571-C";
    let tw = Framebuffer::text_width(title, BIG_SCALE);
    let g = then_text(fb, Ghost(base), g, title, (WIDTH as i32 - tw) / 2, 80, BIG_SCALE, font);
    let sub = "REMOTE SENTRY WEAPON SYSTEM";
    let sw = Framebuffer::text_width(sub, SECTION_SCALE);
    let g = then_text(fb, Ghost(base), g, sub, (WIDTH as i32 - sw) / 2, 112, SECTION_SCALE, font);
    let g = then_text(
        fb,
        Ghost(base),
        g,
        "POST — MICROWAVE DATALINK",
        cx - 96,
        140,
        SECTION_SCALE,
        font,
    );
    let g = then_text(
        fb,
        Ghost(base),
        g,
        "SENTRY-1..4 LINK CHECK .... OK",
        cx - 112,
        156,
        SECTION_SCALE,
        font,
    );
    let total = 40u32;
    let done = total.saturating_sub(state.boot_ticks_remaining);
    let bar_w: i32 = 200;
    let filled = (bar_w as u32 * done / total) as i32;
    let bx = cx - bar_w / 2;
    let g = then_outline(fb, Ghost(base), g, bx, 175, bar_w, 14);
    let g = if filled > 0 {
        then_fill(fb, Ghost(base), g, bx + 1, 176, filled - 1, 12, true)
    } else {
        g
    };
    let _ = then_text(fb, Ghost(base), g, "PRESS ANY KEY", cx - 52, 210, SECTION_SCALE, font);
}

/// Draws the whole scene for `state` on a cleared canvas: the POST splash
/// during boot; otherwise the header, the Options or Fire panel, and the
/// status strip. Afterwards exactly the pixels of `scene_lit` are on.
pub fn render(state: &AppState, fb: &mut Framebuffer, font: &Font)
    requires
        state@.wf(),
        old(fb).wf(),
    ensures
        final(fb).wf(),
        forall|a: int, b: int| #[trigger] final(fb).lit(a, b) == scene_lit(state@, font@, a, b),
{
    fb.clear();
    let ghost cleared = *fb;
    match state.screen {
        Screen::Boot => {
            draw_boot(state, fb, font);
        },
        Screen::Options => {
            draw_header(state, fb, font);
            let ghost s1 = *fb;
            draw_options(state, fb, font);
            proof {
                lemma_paints_concat(cleared, s1, *fb, header_ops(state@, font@), options_ops(state@, font@));
            }
            let ghost s2 = *fb;
            draw_status_strip(state, fb, font);
            proof {
                lemma_paints_concat(
                    cleared,
                    s2,
                    *fb,
                    header_ops(state@, font@) + options_ops(state@, font@),
                    status_ops(state@, font@),
                );
            }
        },
        Screen::Fire => {
            draw_header(state, fb, font);
            let ghost s1 = *fb;
            draw_fire(state, fb, font);
            proof {
                lemma_paints_concat(cleared, s1, *fb, header_ops(state@, font@), fire_ops(state@, font@));
            }
            let ghost s2 = *fb;
            draw_status_strip(state, fb, font);
            proof {
                lemma_paints_concat(
                    cleared,
                    s2,
                    *fb,
                    header_ops(state@, font@) + fire_ops(state@, font@),
                    status_ops(state@, font@),
                );
            }
        },
    }
    assert forall|a: int, b: int| #[trigger] fb.lit(a, b) == scene_lit(state@, font@, a, b) by {
        if on_canvas(a, b) {
            assert(!cleared.lit(a, b));
        }
    }
}


/// The status strip touches nothing above its rule at row 216.
proof fn lemma_status_rows(m: AppModel, font: Seq<[u8; 8]>, v: bool, a: int, b: int)
    requires
        b < 216,
    ensures
        ops_lit(status_ops(m, font), v, a, b) == v,
{
    let line = Seq::<Op>::empty().push(Op::Line(0, 216, 639, 216));
    lemma_ops_lit_concat(line, label_ops(font, status_text(m), 4, 218), v, a, b);
    lemma_line_horizontal(0, 639, 216);
    assert(line.drop_last() =~= Seq::<Op>::empty());
    assert(line.last() == Op::Line(0, 216, 639, 216));
    assert(ops_lit(line.drop_last(), v, a, b) == v);
    assert(!line_points(0, 216, 639, 216).contains((a, b)));
    assert(ops_lit(line, v, a, b) == v);
    lemma_text_rows(font, status_text(m), 4, 218, 1, v, a, b);
}

/// While CRITICAL shows on the Fire screen, the blink flips exactly the
/// outer warning box: the frame with the blink lit is the frame with it dark,
/// inverted inside the box at (6, 101) of 106 × 44 pixels and the same
/// everywhere else.
pub proof fn lemma_critical_flash(m: AppModel, font: Seq<[u8; 8]>, a: int, b: int)
    requires
        m.wf(),
        m.screen == Screen::Fire,
        m.active().fire.critical,
    ensures
        ({
            let s = m.active();
            let bright = m.with_active(
                Sentry { fire: FireTelemetry { critical_blink: true, ..s.fire }, ..s },
            );
            let dark = m.with_active(
                Sentry { fire: FireTelemetry { critical_blink: false, ..s.fire }, ..s },
            );
            scene_lit(bright, font, a, b) == if in_rect(a, b, 6, 101, 106, 44) {
                !scene_lit(dark, font, a, b)
            } else {
                scene_lit(dark, font, a, b)
            }
        }),
{
    let s = m.active();
    let sb = Sentry { fire: FireTelemetry { critical_blink: true, ..s.fire }, ..s };
    let sd = Sentry { fire: FireTelemetry { critical_blink: false, ..s.fire }, ..s };
    let bright = m.with_active(sb);
    let dark = m.with_active(sd);
    assert(bright.active() == sb);
    assert(dark.active() == sd);
    let h = header_ops(dark, font);
    let st = status_ops(dark, font);
    let gauges = fire_gauges_ops(dark, font);
    let label = label_ops(font, sd.spec_label() + "  "@ + armed_word(sd), 20, 200);
    let inv = Op::Invert(6, 101, 106, 44);
    let c = critical_ops(font, sd.fire, gauges);
    assert(header_ops(bright, font) == h);
    assert(status_text(bright) == status_text(dark));
    assert(status_ops(bright, font) == st);
    assert(fire_gauges_ops(bright, font) == gauges);
    assert(critical_ops(font, sb.fire, gauges) == c.push(inv));
    assert(fire_ops(bright, font) == c.push(inv) + label);
    assert(fire_ops(dark, font) == c + label);
    assert(c.push(inv).drop_last() =~= c);
    let q = ops_lit(c, ops_lit(h, false, a, b), a, b);
    lemma_ops_lit_concat(h + (c.push(inv) + label), st, false, a, b);
    lemma_ops_lit_concat(h, c.push(inv) + label, false, a, b);
    lemma_ops_lit_concat(c.push(inv), label, ops_lit(h, false, a, b), a, b);
    lemma_ops_lit_concat(h + (c + label), st, false, a, b);
    lemma_ops_lit_concat(h, c + label, false, a, b);
    lemma_ops_lit_concat(c, label, ops_lit(h, false, a, b), a, b);
    if in_rect(a, b, 6, 101, 106, 44) {
        let sl = sd.spec_label() + "  "@ + armed_word(sd);
        lemma_text_rows(font, sl, 20, 200, 1, !q, a, b);
        lemma_text_rows(font, sl, 20, 200, 1, q, a, b);
        lemma_status_rows(dark, font, !q, a, b);
        lemma_status_rows(dark, font, q, a, b);
    }
}


/// The warning drawn after `g` is `g` followed by the warning on its own.
proof fn lemma_critical_after(font: Seq<[u8; 8]>, f: FireTelemetry, g: Seq<Op>)
    ensures
        critical_ops(font, f, g) == g + critical_ops(font, f, Seq::empty()),
{
    if f.critical {
        assert(critical_ops(font, f, g) =~= g + critical_ops(font, f, Seq::empty()));
    } else {
        assert(g + Seq::<Op>::empty() =~= g);
    }
}

/// The CRITICAL warning never turns off a pixel right of its frames.
proof fn lemma_critical_keeps_lit(font: Seq<[u8; 8]>, f: FireTelemetry, a: int, b: int)
    requires
        a >= 112,
    ensures
        ops_lit(critical_ops(font, f, Seq::empty()), true, a, b),
{
    if f.critical {
        let t = Seq::<Op>::empty() + label_ops(font, "CRITICAL"@, 25, 118);
        lemma_text_keeps_lit(font, "CRITICAL"@, 25, 118, 1, a, b);
        assert(t =~= label_ops(font, "CRITICAL"@, 25, 118));
        assert(ops_lit(t, true, a, b));
        let c1 = t.push(Op::Outline(6, 101, 106, 44));
        let c2 = c1.push(Op::Outline(12, 107, 94, 32));
        let c3 = c2.push(Op::Outline(18, 113, 82, 20));
        let c4 = c3.push(Op::Invert(6, 101, 106, 44));
        assert(c1.drop_last() =~= t && c1.last() == Op::Outline(6, 101, 106, 44));
        assert(ops_lit(c1, true, a, b));
        assert(c2.drop_last() =~= c1 && c2.last() == Op::Outline(12, 107, 94, 32));
        assert(ops_lit(c2, true, a, b));
        assert(c3.drop_last() =~= c2 && c3.last() == Op::Outline(18, 113, 82, 20));
        assert(ops_lit(c3, true, a, b));
        assert(c4.drop_last() =~= c3 && c4.last() == Op::Invert(6, 101, 106, 44));
        assert(ops_lit(c4, true, a, b));
        assert(critical_ops(font, f, Seq::empty()) == if f.critical_blink {
            c4
        } else {
            c3
        });
    }
}

/// The status strip never turns a pixel off.
proof fn lemma_status_keeps_lit(m: AppModel, font: Seq<[u8; 8]>, a: int, b: int)
    ensures
        ops_lit(status_ops(m, font), true, a, b),
{
    let line = Seq::<Op>::empty().push(Op::Line(0, 216, 639, 216));
    lemma_ops_lit_concat(line, label_ops(font, status_text(m), 4, 218), true, a, b);
    assert(line.drop_last() =~= Seq::<Op>::empty() && line.last() == Op::Line(0, 216, 639, 216));
    assert(ops_lit(Seq::<Op>::empty(), true, a, b));
    assert(ops_lit(line, true, a, b));
    lemma_text_keeps_lit(font, status_text(m), 4, 218, 1, a, b);
}

/// A gauge fill lights the pixels of its bar and keeps every other pixel.
proof fn lemma_gauge_fill_at(
    x: int,
    y_top: int,
    y_bot: int,
    width: int,
    level: int,
    full: int,
    a: int,
    b: int,
)
    ensures
        forall|v: bool|
            #[trigger] ops_lit(gauge_fill_ops(x, y_top, y_bot, width, level, full), v, a, b) == ((
            gauge_fill(y_bot - y_top, level, full) > 0 && in_rect(
                a,
                b,
                x,
                y_bot - gauge_fill(y_bot - y_top, level, full),
                width,
                gauge_fill(y_bot - y_top, level, full),
            )) || v),
{
    let filled = gauge_fill(y_bot - y_top, level, full);
    let g = gauge_fill_ops(x, y_top, y_bot, width, level, full);
    assert forall|v: bool| #[trigger] ops_lit(g, v, a, b) == ((filled > 0 && in_rect(
        a,
        b,
        x,
        y_bot - filled,
        width,
        filled,
    )) || v) by {
        if filled > 0 {
            assert(g.drop_last() =~= Seq::<Op>::empty());
            assert(g.last() == Op::Fill(x, y_bot - filled, width, filled, true));
            assert(ops_lit(Seq::<Op>::empty(), v, a, b) == v);
        } else {
            assert(g =~= Seq::<Op>::empty());
            assert(ops_lit(Seq::<Op>::empty(), v, a, b) == v);
        }
    }
}

/// The Fire scene split around its two gauge bars: the header, readouts and
/// temperature bar, then the R(M) bar, then the warning, caption and status
/// strip.
proof fn lemma_fire_scene_parts(m: AppModel, font: Seq<[u8; 8]>)
    requires
        m.screen == Screen::Fire,
    ensures
        ({
            let s = m.active();
            let f = s.fire;
            let h = header_ops(m, font);
            let p = fire_readouts_ops(f, font);
            let t = gauge_fill_ops(508, 68, 180, 20, f.temperature as int, 100);
            let r = gauge_fill_ops(576, 68, 180, 20, f.rm as int, 100);
            let post = critical_ops(font, f, Seq::empty()) + label_ops(
                font,
                s.spec_label() + "  "@ + armed_word(s),
                20,
                200,
            ) + status_ops(m, font);
            &&& scene_ops(m, font) == (h + p + t) + r + post
            &&& scene_ops(m, font) == (h + p) + t + (r + post)
        }),
{
    let s = m.active();
    let f = s.fire;
    let p = fire_readouts_ops(f, font);
    let t = gauge_fill_ops(508, 68, 180, 20, f.temperature as int, 100);
    let r = gauge_fill_ops(576, 68, 180, 20, f.rm as int, 100);
    lemma_critical_after(font, f, p + t + r);
    let h = header_ops(m, font);
    let post = critical_ops(font, f, Seq::empty()) + label_ops(
        font,
        s.spec_label() + "  "@ + armed_word(s),
        20,
        200,
    ) + status_ops(m, font);
    assert(scene_ops(m, font) =~= (h + p + t) + r + post);
    assert(scene_ops(m, font) =~= (h + p) + t + (r + post));
}

/// Everything drawn after the gauge bars never turns a bar pixel off.
proof fn lemma_fire_post_keeps_lit(m: AppModel, font: Seq<[u8; 8]>, a: int, b: int)
    requires
        a >= 112,
    ensures
        ({
            let s = m.active();
            let post = critical_ops(font, s.fire, Seq::empty()) + label_ops(
                font,
                s.spec_label() + "  "@ + armed_word(s),
                20,
                200,
            ) + status_ops(m, font);
            ops_lit(post, true, a, b)
        }),
{
    let s = m.active();
    let c = critical_ops(font, s.fire, Seq::empty());
    let lab = label_ops(font, s.spec_label() + "  "@ + armed_word(s), 20, 200);
    lemma_critical_keeps_lit(font, s.fire, a, b);
    lemma_text_keeps_lit(font, s.spec_label() + "  "@ + armed_word(s), 20, 200, 1, a, b);
    lemma_status_keeps_lit(m, font, a, b);
    lemma_ops_lit_concat(c, lab, true, a, b);
    lemma_ops_lit_concat(c + lab, status_ops(m, font), true, a, b);
}

/// The console with the active drum's R(M) set to `rm` and its temperature
/// to `temperature`.
pub open spec fn with_gauges(m: AppModel, temperature: u8, rm: u8) -> AppModel {
    let s = m.active();
    m.with_active(Sentry { fire: FireTelemetry { temperature, rm, ..s.fire }, ..s })
}

/// Changing only the active drum's gauge levels changes none of the scene
/// but the two bars.
proof fn lemma_with_gauges_parts(m: AppModel, font: Seq<[u8; 8]>, temperature: u8, rm: u8)
    requires
        m.wf(),
        m.screen == Screen::Fire,
    ensures
        ({
            let m2 = with_gauges(m, temperature, rm);
            let s = m.active();
            let s2 = m2.active();
            &&& m2.screen == Screen::Fire
            &&& s2.fire.temperature == temperature
            &&& s2.fire.rm == rm
            &&& header_ops(m2, font) == header_ops(m, font)
            &&& fire_readouts_ops(s2.fire, font) == fire_readouts_ops(s.fire, font)
            &&& critical_ops(font, s2.fire, Seq::empty()) == critical_ops(font, s.fire, Seq::empty())
            &&& s2.spec_label() + "  "@ + armed_word(s2) == s.spec_label() + "  "@ + armed_word(s)
            &&& status_ops(m2, font) == status_ops(m, font)
        }),
{
    let m2 = with_gauges(m, temperature, rm);
    let s = m.active();
    let s2 = m2.active();
    assert(s2.fire.spec_time_display() == s.fire.spec_time_display());
    assert(status_text(m2) == status_text(m));
}

/// The gauges of the firing panel read the drum. A pixel of the R(M) bar
/// (columns 576–595, rows 68–179) is lit when its row lies within
/// round(112 · min(rm, 100) / 100) pixels of the base at row 180, and
/// otherwise shows what the same console with R(M) at zero shows; the
/// temperature bar (columns 508–527) reads the temperature the same way.
pub proof fn lemma_fire_gauges_read_drum(m: AppModel, font: Seq<[u8; 8]>, a: int, b: int)
    requires
        m.wf(),
        m.screen == Screen::Fire,
        68 <= b < 180,
    ensures
        ({
            let f = m.active().fire;
            let rm_rows = (224 * (if f.rm < 100 {
                f.rm as int
            } else {
                100
            }) + 100) / 200;
            let temp_rows = (224 * (if f.temperature < 100 {
                f.temperature as int
            } else {
                100
            }) + 100) / 200;
            &&& 576 <= a < 596 ==> scene_lit(m, font, a, b) == (180 - b <= rm_rows || scene_lit(
                with_gauges(m, f.temperature, 0),
                font,
                a,
                b,
            ))
            &&& 508 <= a < 528 ==> scene_lit(m, font, a, b) == (180 - b <= temp_rows
                || scene_lit(with_gauges(m, 0, f.rm), font, a, b))
        }),
{
    if !(508 <= a < 596) {
        return;
    }
    let s = m.active();
    let f = s.fire;
    let h = header_ops(m, font);
    let p = fire_readouts_ops(f, font);
    let t = gauge_fill_ops(508, 68, 180, 20, f.temperature as int, 100);
    let r = gauge_fill_ops(576, 68, 180, 20, f.rm as int, 100);
    let post = critical_ops(font, f, Seq::empty()) + label_ops(
        font,
        s.spec_label() + "  "@ + armed_word(s),
        20,
        200,
    ) + status_ops(m, font);
    lemma_fire_scene_parts(m, font);
    lemma_fire_post_keeps_lit(m, font, a, b);
    lemma_gauge_fill_at(508, 68, 180, 20, f.temperature as int, 100, a, b);
    lemma_gauge_fill_at(576, 68, 180, 20, f.rm as int, 100, a, b);
    if 576 <= a {
        let m0 = with_gauges(m, f.temperature, 0);
        lemma_with_gauges_parts(m, font, f.temperature, 0);
        lemma_fire_scene_parts(m0, font);
        assert(gauge_fill_ops(576, 68, 180, 20, 0, 100) =~= Seq::<Op>::empty());
        assert(scene_ops(m0, font) =~= (h + p + t) + post);
        lemma_fill_between(
            h + p + t,
            r,
            post,
            gauge_fill(112, f.rm as int, 100) > 0 && in_rect(
                a,
                b,
                576,
                180 - gauge_fill(112, f.rm as int, 100),
                20,
                gauge_fill(112, f.rm as int, 100),
            ),
            false,
            a,
            b,
        );
    } else {
        let m0 = with_gauges(m, 0, f.rm);
        lemma_with_gauges_parts(m, font, 0, f.rm);
        lemma_fire_scene_parts(m0, font);
        assert(gauge_fill_ops(508, 68, 180, 20, 0, 100) =~= Seq::<Op>::empty());
        assert(scene_ops(m0, font) =~= (h + p) + (r + post));
        assert(ops_lit(r, true, a, b));
        lemma_ops_lit_concat(r, post, true, a, b);
        lemma_fill_between(
            h + p,
            t,
            r + post,
            gauge_fill(112, f.temperature as int, 100) > 0 && in_rect(
                a,
                b,
                508,
                180 - gauge_fill(112, f.temperature as int, 100),
                20,
                gauge_fill(112, f.temperature as int, 100),
            ),
            false,
            a,
            b,
        );
    }
}


/// The unit letters run in id order: unit 1 reads A, 2 reads B, 3 reads C,
/// 4 reads D; any other id reads A.
pub proof fn lemma_unit_letters(id: u8)
    ensures
        1 <= id <= 4 ==> spec_sentry_mark(id) as u32 == 64 + id,
        !(1 <= id <= 4) ==> spec_sentry_mark(id) == 'A',
{
}

/// Each option row of a section has a 13-pixel highlight bar, exactly for
/// the rows the section has: it starts in the section frame's first column,
/// is no wider than the frame, and row `index` sits `14 · index` pixels below
/// the first bar, which starts 3 pixels under the frame.
pub proof fn lemma_selection_rows(section: MenuSection, index: int)
    ensures
        selection_rect(section, index) is Some <==> 0 <= index < rows_of(section),
        selection_rect(section, index) matches Some((x, y, w, h)) ==> {
            let f = section_frame(section);
            &&& x == f.0
            &&& y == f.1 + f.3 + 3 + 14 * index
            &&& h == 13
            &&& 0 < w <= f.2
        },
{
}

/// The POST progress bar: inside the bar's frame (columns 221–418, rows
/// 176–187) a pixel is lit exactly when it lies in the first `5 · done − 1`
/// columns, where `done` is how many of the 40 boot ticks have been counted
/// down; so the bar fills 5 pixels per tick and is empty before the first.
#[verifier::rlimit(40)]
pub proof fn lemma_boot_bar(m: AppModel, font: Seq<[u8; 8]>, a: int, b: int)
    requires
        m.screen == Screen::Boot,
        221 <= a < 419,
        176 <= b < 188,
    ensures
        ({
            let done: int = if m.boot_ticks_remaining <= 40 {
                40 - m.boot_ticks_remaining
            } else {
                0
            };
            scene_lit(m, font, a, b) == (a < 221 + 5 * done - 1)
        }),
{
    let t1 = label_ops(font, "W-Y COMBINED SYSTEMS"@, 240, 40);
    let t2 = label_ops(font, "USCM / HYPERDYNE"@, 256, 54);
    let t3 = text_ops(font, "UA 571-C"@, 224, 80, 3);
    let t4 = label_ops(font, "REMOTE SENTRY WEAPON SYSTEM"@, 212, 112);
    let t5 = label_ops(font, "POST — MICROWAVE DATALINK"@, 224, 140);
    let t6 = label_ops(font, "SENTRY-1..4 LINK CHECK .... OK"@, 208, 156);
    let t7 = label_ops(font, "PRESS ANY KEY"@, 268, 210);
    let e = Seq::<Op>::empty();
    let p = e + t1 + t2 + t3 + t4 + t5 + t6;
    lemma_text_rows(font, "W-Y COMBINED SYSTEMS"@, 240, 40, 1, false, a, b);
    lemma_text_rows(font, "USCM / HYPERDYNE"@, 256, 54, 1, false, a, b);
    lemma_text_rows(font, "UA 571-C"@, 224, 80, 3, false, a, b);
    lemma_text_rows(font, "REMOTE SENTRY WEAPON SYSTEM"@, 212, 112, 1, false, a, b);
    lemma_text_rows(font, "POST — MICROWAVE DATALINK"@, 224, 140, 1, false, a, b);
    lemma_text_rows(font, "SENTRY-1..4 LINK CHECK .... OK"@, 208, 156, 1, false, a, b);
    assert(ops_lit(e, false, a, b) == false);
    lemma_ops_lit_concat(e, t1, false, a, b);
    lemma_ops_lit_concat(e + t1, t2, false, a, b);
    lemma_ops_lit_concat(e + t1 + t2, t3, false, a, b);
    lemma_ops_lit_concat(e + t1 + t2 + t3, t4, false, a, b);
    lemma_ops_lit_concat(e + t1 + t2 + t3 + t4, t5, false, a, b);
    lemma_ops_lit_concat(e + t1 + t2 + t3 + t4 + t5, t6, false, a, b);
    assert(!ops_lit(p, false, a, b));
    let o = p.push(Op::Outline(220, 175, 200, 14));
    lemma_outline_is_border(220, 175, 200, 14);
    assert(o.drop_last() =~= p && o.last() == Op::Outline(220, 175, 200, 14));
    assert(outline_points(220, 175, 200, 14).contains((a, b)) <==> (in_rect(a, b, 220, 175, 200, 14)
        && (a == 220 || a == 220 + 200 - 1 || b == 175 || b == 175 + 14 - 1)));
    assert(!outline_points(220, 175, 200, 14).contains((a, b)));
    assert(!ops_lit(o, false, a, b));
    let filled = boot_bar_filled(m.boot_ticks_remaining);
    let f = if filled > 0 {
        o.push(Op::Fill(221, 176, filled - 1, 12, true))
    } else {
        o
    };
    if filled > 0 {
        assert(f.drop_last() =~= o && f.last() == Op::Fill(221, 176, filled - 1, 12, true));
    }
    assert(ops_lit(f, false, a, b) == (a < 221 + filled - 1));
    assert(boot_ops(m, font) == f + t7);
    lemma_ops_lit_concat(f, t7, false, a, b);
    lemma_text_rows(font, "PRESS ANY KEY"@, 268, 210, 1, ops_lit(f, false, a, b), a, b);
}

} // verus!
