//! Drawing described as a list of operations.
//!
//! A scene is the framebuffer primitives applied one after another. `Op`
//! names one primitive call and `ops_lit` says what a pixel looks like after
//! a list of them, starting from what it was before. `paints` ties a
//! framebuffer to that description, so every drawing routine can state its
//! effect as the exact list of primitives it performs.
use vstd::prelude::*;

use crate::draw::gauge_frame_pixel;
use crate::fb::{
    circle_points, fits_i32, glyph_cell_covers, glyph_covers_before, in_rect, line_points,
    on_canvas, outline_points, Framebuffer,
};

verus! {

/// The glyph table: an 8×8 bitmap (one byte per row, most significant bit
/// on the left) for each of the 128 ASCII codes.
pub type Font = [[u8; 8]; 128];

/// One framebuffer primitive with its arguments.
pub enum Op {
    /// A Bresenham line between two end points.
    Line(int, int, int, int),
    /// A rectangle outline `(x, y, w, h)`.
    Outline(int, int, int, int),
    /// A rectangle `(x, y, w, h)` with every pixel flipped.
    Invert(int, int, int, int),
    /// A rectangle `(x, y, w, h)` with every pixel set to the flag.
    Fill(int, int, int, int, bool),
    /// A midpoint circle `(cx, cy, radius)`.
    Circle(int, int, int),
    /// An 8×8 glyph drawn at `(x, y)` with each bit a `scale`-sized block.
    Glyph(Seq<u8>, int, int, int),
    /// A vertical gauge frame `(x_left, y_top, y_bot)` with its tick marks.
    GaugeFrame(int, int, int),
}

/// Whether `(a, b)` is lit after `op`, given whether it was lit before.
pub open spec fn op_lit(op: Op, prev: bool, a: int, b: int) -> bool {
    match op {
        Op::Line(x0, y0, x1, y1) => prev || line_points(x0, y0, x1, y1).contains((a, b)),
        Op::Outline(x, y, w, h) => if w > 0 && h > 0 {
            prev || outline_points(x, y, w, h).contains((a, b))
        } else {
            prev
        },
        Op::Invert(x, y, w, h) => if in_rect(a, b, x, y, w, h) {
            !prev
        } else {
            prev
        },
        Op::Fill(x, y, w, h, on) => if in_rect(a, b, x, y, w, h) {
            on
        } else {
            prev
        },
        Op::Circle(cx, cy, rad) => prev || circle_points(cx, cy, rad).contains((a, b)),
        Op::Glyph(g, x, y, scale) => prev || glyph_covers_before(g, x, y, scale, 8, 0, a, b),
        Op::GaugeFrame(x, y_top, y_bot) => prev || gauge_frame_pixel(a, b, x, y_top, y_bot),
    }
}

/// Whether `(a, b)` is lit after `ops` run in order, given `base` before.
pub open spec fn ops_lit(ops: Seq<Op>, base: bool, a: int, b: int) -> bool
    decreases ops.len(),
{
    if ops.len() == 0 {
        base
    } else {
        op_lit(ops.last(), ops_lit(ops.drop_last(), base, a, b), a, b)
    }
}

/// The glyph drawn for `ch`: its entry in the table for an ASCII code, and
/// none at all (a blank cell) for any other character.
pub open spec fn char_ops(font: Seq<[u8; 8]>, ch: char, x: int, y: int, scale: int) -> Seq<Op> {
    if (ch as int) < 128 {
        seq![Op::Glyph(font[ch as int]@, x, y, scale)]
    } else {
        Seq::empty()
    }
}

/// The glyphs of `s` drawn left to right from `(x, y)`, one cell of
/// `8 · scale` pixels per character; a line break is skipped without
/// advancing.
pub open spec fn text_ops(font: Seq<[u8; 8]>, s: Seq<char>, x: int, y: int, scale: int) -> Seq<Op>
    decreases s.len(),
{
    if s.len() == 0 {
        Seq::empty()
    } else if s[0] == '\n' {
        text_ops(font, s.drop_first(), x, y, scale)
    } else {
        char_ops(font, s[0], x, y, scale) + text_ops(font, s.drop_first(), x + 8 * scale, y, scale)
    }
}

/// A scale below 1 draws at 1.
pub open spec fn norm_scale(scale: i32) -> int {
    if scale < 1 {
        1
    } else {
        scale as int
    }
}

impl Framebuffer {
    /// `self` is `before` with `ops` drawn over it, in order.
    pub open spec fn paints(&self, before: Framebuffer, ops: Seq<Op>) -> bool {
        &&& self.wf()
        &&& forall|a: int, b: int|
            on_canvas(a, b) ==> #[trigger] self.lit(a, b) == ops_lit(ops, before.lit(a, b), a, b)
    }

    /// Draws the glyph for `ch` with its top-left corner at `(x, y)`; a
    /// character outside ASCII has no glyph in the table and draws nothing.
    pub fn draw_char(&mut self, ch: char, x: i32, y: i32, scale: i32, font: &Font)
        requires
            old(self).wf(),
            x + 8 * norm_scale(scale) <= i32::MAX,
            y + 8 * norm_scale(scale) <= i32::MAX,
            8 * norm_scale(scale) <= i32::MAX,
        ensures
            final(self).paints(
                *old(self),
                char_ops(font@, ch, x as int, y as int, norm_scale(scale)),
            ),
    {
        let ghost before = *self;
        let scale: i32 = if scale < 1 {
            1
        } else {
            scale
        };
        if (ch as u32) < 128 {
            let glyph = font[ch as u32 as usize];
            self.draw_glyph(glyph, x, y, scale);
            proof {
                lemma_paints_empty(before);
                lemma_paints_step(
                    before,
                    before,
                    *self,
                    Seq::empty(),
                    Op::Glyph(glyph@, x as int, y as int, scale as int),
                );
                assert(Seq::<Op>::empty().push(Op::Glyph(glyph@, x as int, y as int, scale as int))
                    =~= char_ops(font@, ch, x as int, y as int, scale as int));
            }
        } else {
            proof {
                lemma_paints_empty(before);
            }
        }
    }

    /// Draws `text` left to right from `(x, y)`, advancing `8 · scale`
    /// pixels per character; a line break is skipped without advancing.
    pub fn draw_text(&mut self, text: &str, x: i32, y: i32, scale: i32, font: &Font)
        requires
            old(self).wf(),
            x + 8 * norm_scale(scale) * text@.len() <= i32::MAX,
            y + 8 * norm_scale(scale) <= i32::MAX,
            8 * norm_scale(scale) <= i32::MAX,
        ensures
            final(self).paints(
                *old(self),
                text_ops(font@, text@, x as int, y as int, norm_scale(scale)),
            ),
    {
        let ghost before = *self;
        let scale: i32 = if scale < 1 {
            1
        } else {
            scale
        };
        proof {
            lemma_paints_empty(before);
        }
        let g = then_text(self, Ghost(before), Ghost(Seq::empty()), text, x, y, scale, font);
        assert(Seq::<Op>::empty() + text_ops(font@, text@, x as int, y as int, scale as int)
            =~= text_ops(font@, text@, x as int, y as int, scale as int));
    }
}

/// Any valid framebuffer paints itself with no operations.
pub proof fn lemma_paints_empty(fb: Framebuffer)
    requires
        fb.wf(),
    ensures
        fb.paints(fb, Seq::empty()),
{
}

/// Applying one more operation extends the list.
pub proof fn lemma_paints_step(
    before: Framebuffer,
    mid: Framebuffer,
    after: Framebuffer,
    ops: Seq<Op>,
    op: Op,
)
    requires
        mid.paints(before, ops),
        after.wf(),
        forall|a: int, b: int|
            on_canvas(a, b) ==> #[trigger] after.lit(a, b) == op_lit(op, mid.lit(a, b), a, b),
    ensures
        after.paints(before, ops.push(op)),
{
    assert(ops.push(op).drop_last() =~= ops);
    assert forall|a: int, b: int| on_canvas(a, b) implies #[trigger] after.lit(a, b) == ops_lit(
        ops.push(op),
        before.lit(a, b),
        a,
        b,
    ) by {
        assert(mid.lit(a, b) == ops_lit(ops, before.lit(a, b), a, b));
    }
}

/// Running `ops1` then `ops2` is running their concatenation.
pub proof fn lemma_ops_lit_concat(ops1: Seq<Op>, ops2: Seq<Op>, base: bool, a: int, b: int)
    ensures
        ops_lit(ops1 + ops2, base, a, b) == ops_lit(ops2, ops_lit(ops1, base, a, b), a, b),
    decreases ops2.len(),
{
    if ops2.len() == 0 {
        assert(ops1 + ops2 =~= ops1);
    } else {
        assert((ops1 + ops2).drop_last() =~= ops1 + ops2.drop_last());
        assert((ops1 + ops2).last() == ops2.last());
        lemma_ops_lit_concat(ops1, ops2.drop_last(), base, a, b);
    }
}

/// Painting `ops1` and then `ops2` over the result paints `ops1 + ops2`.
pub proof fn lemma_paints_concat(
    before: Framebuffer,
    mid: Framebuffer,
    after: Framebuffer,
    ops1: Seq<Op>,
    ops2: Seq<Op>,
)
    requires
        mid.paints(before, ops1),
        after.paints(mid, ops2),
    ensures
        after.paints(before, ops1 + ops2),
{
    assert forall|a: int, b: int| on_canvas(a, b) implies #[trigger] after.lit(a, b) == ops_lit(
        ops1 + ops2,
        before.lit(a, b),
        a,
        b,
    ) by {
        lemma_ops_lit_concat(ops1, ops2, before.lit(a, b), a, b);
        assert(mid.lit(a, b) == ops_lit(ops1, before.lit(a, b), a, b));
    }
}

/// Text drawn at row `y` touches only its `8 · scale` rows: any other row
/// keeps whatever it had.
pub proof fn lemma_text_rows(
    font: Seq<[u8; 8]>,
    s: Seq<char>,
    x: int,
    y: int,
    scale: int,
    base: bool,
    a: int,
    b: int,
)
    requires
        scale >= 1,
        b < y || b >= y + 8 * scale,
    ensures
        ops_lit(text_ops(font, s, x, y, scale), base, a, b) == base,
    decreases s.len(),
{
    if s.len() > 0 {
        let nx = if s[0] == '\n' {
            x
        } else {
            x + 8 * scale
        };
        lemma_text_rows(font, s.drop_first(), nx, y, scale, base, a, b);
        if s[0] != '\n' {
            let c = char_ops(font, s[0], x, y, scale);
            let t = text_ops(font, s.drop_first(), nx, y, scale);
            assert(text_ops(font, s, x, y, scale) == c + t);
            lemma_ops_lit_concat(c, t, base, a, b);
            if (s[0] as int) < 128 {
                let g = font[s[0] as int]@;
                assert(c == seq![Op::Glyph(g, x, y, scale)]);
                assert(c.drop_last() =~= Seq::<Op>::empty());
                assert(c.last() == Op::Glyph(g, x, y, scale));
                assert(ops_lit(c.drop_last(), base, a, b) == base);
                if glyph_covers_before(g, x, y, scale, 8, 0, a, b) {
                    let (r, col) = choose|r: int, col: int|
                        (r < 8 || (r == 8 && col < 0)) && #[trigger] glyph_cell_covers(
                            g,
                            x,
                            y,
                            scale,
                            r,
                            col,
                            a,
                            b,
                        );
                    assert(0 <= r * scale && r * scale + scale <= 8 * scale) by (nonlinear_arith)
                        requires
                            0 <= r < 8,
                            scale >= 1,
                    ;
                    assert(in_rect(a, b, x + col * scale, y + r * scale, scale, scale));
                    assert(false);
                }
                assert(ops_lit(c, base, a, b) == base);
            } else {
                assert(c =~= Seq::<Op>::empty());
            }
            assert(ops_lit(c, base, a, b) == base);
        }
    }
}

/// Drawing text never turns a pixel off.
pub proof fn lemma_text_keeps_lit(
    font: Seq<[u8; 8]>,
    s: Seq<char>,
    x: int,
    y: int,
    scale: int,
    a: int,
    b: int,
)
    ensures
        ops_lit(text_ops(font, s, x, y, scale), true, a, b),
    decreases s.len(),
{
    if s.len() > 0 {
        let nx = if s[0] == '\n' {
            x
        } else {
            x + 8 * scale
        };
        lemma_text_keeps_lit(font, s.drop_first(), nx, y, scale, a, b);
        if s[0] != '\n' {
            let c = char_ops(font, s[0], x, y, scale);
            let t = text_ops(font, s.drop_first(), nx, y, scale);
            assert(text_ops(font, s, x, y, scale) == c + t);
            lemma_ops_lit_concat(c, t, true, a, b);
            if (s[0] as int) < 128 {
                let g = Op::Glyph(font[s[0] as int]@, x, y, scale);
                assert(c == seq![g]);
                assert(c.drop_last() =~= Seq::<Op>::empty());
                assert(c.last() == g);
                assert(ops_lit(c.drop_last(), true, a, b));
            } else {
                assert(c =~= Seq::<Op>::empty());
            }
            assert(ops_lit(c, true, a, b));
        }
    }
}

/// When `fill` lights `(a, b)` exactly when `covered` (keeping it otherwise)
/// and `post` never turns it off, drawing `pre`, `fill`, `post` lights it
/// exactly when `covered` or when `pre` then `post` alone would.
pub proof fn lemma_fill_between(
    pre: Seq<Op>,
    fill: Seq<Op>,
    post: Seq<Op>,
    covered: bool,
    base: bool,
    a: int,
    b: int,
)
    requires
        forall|v: bool| #[trigger] ops_lit(fill, v, a, b) == (covered || v),
        ops_lit(post, true, a, b),
    ensures
        ops_lit(pre + fill + post, base, a, b) == (covered || ops_lit(pre + post, base, a, b)),
{
    let v = ops_lit(pre, base, a, b);
    lemma_ops_lit_concat(pre + fill, post, base, a, b);
    lemma_ops_lit_concat(pre, fill, base, a, b);
    lemma_ops_lit_concat(pre, post, base, a, b);
    assert(ops_lit(fill, v, a, b) == (covered || v));
}

proof fn lemma_scaled_step(scale: int, k: int)
    requires
        scale >= 1,
        k >= 1,
    ensures
        8 * scale * k == 8 * scale * (k - 1) + 8 * scale,
        8 * scale * (k - 1) >= 0,
{
    assert(8 * scale * k == 8 * scale * (k - 1) + 8 * scale) by (nonlinear_arith);
    assert(8 * scale * (k - 1) >= 0) by (nonlinear_arith)
        requires
            scale >= 1,
            k >= 1,
    ;
}

/// Draws a line and records it.
pub(crate) fn then_line(
    fb: &mut Framebuffer,
    base: Ghost<Framebuffer>,
    ops: Ghost<Seq<Op>>,
    x0: i32,
    y0: i32,
    x1: i32,
    y1: i32,
) -> (r: Ghost<Seq<Op>>)
    requires
        old(fb).paints(base@, ops@),
    ensures
        r@ == ops@.push(Op::Line(x0 as int, y0 as int, x1 as int, y1 as int)),
        final(fb).paints(base@, r@),
{
    let ghost mid = *fb;
    fb.line(x0, y0, x1, y1);
    proof {
        lemma_paints_step(base@, mid, *fb, ops@, Op::Line(x0 as int, y0 as int, x1 as int, y1 as int));
    }
    Ghost(ops@.push(Op::Line(x0 as int, y0 as int, x1 as int, y1 as int)))
}

/// Draws a rectangle outline and records it.
pub(crate) fn then_outline(
    fb: &mut Framebuffer,
    base: Ghost<Framebuffer>,
    ops: Ghost<Seq<Op>>,
    x: i32,
    y: i32,
    w: i32,
    h: i32,
) -> (r: Ghost<Seq<Op>>)
    requires
        old(fb).paints(base@, ops@),
        w <= 0 || h <= 0 || (x + w <= i32::MAX && y + h <= i32::MAX),
    ensures
        r@ == ops@.push(Op::Outline(x as int, y as int, w as int, h as int)),
        final(fb).paints(base@, r@),
{
    let ghost mid = *fb;
    fb.rect_outline(x, y, w, h);
    proof {
        lemma_paints_step(base@, mid, *fb, ops@, Op::Outline(x as int, y as int, w as int, h as int));
    }
    Ghost(ops@.push(Op::Outline(x as int, y as int, w as int, h as int)))
}

/// Inverts a rectangle and records it.
pub(crate) fn then_invert(
    fb: &mut Framebuffer,
    base: Ghost<Framebuffer>,
    ops: Ghost<Seq<Op>>,
    x: i32,
    y: i32,
    w: i32,
    h: i32,
) -> (r: Ghost<Seq<Op>>)
    requires
        old(fb).paints(base@, ops@),
    ensures
        r@ == ops@.push(Op::Invert(x as int, y as int, w as int, h as int)),
        final(fb).paints(base@, r@),
{
    let ghost mid = *fb;
    fb.invert_rect(x, y, w, h);
    proof {
        lemma_paints_step(base@, mid, *fb, ops@, Op::Invert(x as int, y as int, w as int, h as int));
    }
    Ghost(ops@.push(Op::Invert(x as int, y as int, w as int, h as int)))
}

/// Fills a rectangle and records it.
pub(crate) fn then_fill(
    fb: &mut Framebuffer,
    base: Ghost<Framebuffer>,
    ops: Ghost<Seq<Op>>,
    x: i32,
    y: i32,
    w: i32,
    h: i32,
    on: bool,
) -> (r: Ghost<Seq<Op>>)
    requires
        old(fb).paints(base@, ops@),
    ensures
        r@ == ops@.push(Op::Fill(x as int, y as int, w as int, h as int, on)),
        final(fb).paints(base@, r@),
{
    let ghost mid = *fb;
    fb.fill_rect(x, y, w, h, on);
    proof {
        lemma_paints_step(
            base@,
            mid,
            *fb,
            ops@,
            Op::Fill(x as int, y as int, w as int, h as int, on),
        );
    }
    Ghost(ops@.push(Op::Fill(x as int, y as int, w as int, h as int, on)))
}

/// Draws a circle and records it.
pub(crate) fn then_circle(
    fb: &mut Framebuffer,
    base: Ghost<Framebuffer>,
    ops: Ghost<Seq<Op>>,
    cx: i32,
    cy: i32,
    rad: i32,
) -> (r: Ghost<Seq<Op>>)
    requires
        old(fb).paints(base@, ops@),
        rad <= 0 || (rad * 2 <= i32::MAX && fits_i32(cx - rad) && fits_i32(cx + rad) && fits_i32(
            cy - rad,
        ) && fits_i32(cy + rad)),
    ensures
        r@ == ops@.push(Op::Circle(cx as int, cy as int, rad as int)),
        final(fb).paints(base@, r@),
{
    let ghost mid = *fb;
    fb.circle(cx, cy, rad);
    proof {
        lemma_paints_step(base@, mid, *fb, ops@, Op::Circle(cx as int, cy as int, rad as int));
    }
    Ghost(ops@.push(Op::Circle(cx as int, cy as int, rad as int)))
}

/// Draws text at a scale of at least 1 and records its glyphs.
pub(crate) fn then_text(
    fb: &mut Framebuffer,
    base: Ghost<Framebuffer>,
    ops: Ghost<Seq<Op>>,
    text: &str,
    x: i32,
    y: i32,
    scale: i32,
    font: &Font,
) -> (r: Ghost<Seq<Op>>)
    requires
        old(fb).paints(base@, ops@),
        scale >= 1,
        x + 8 * scale * text@.len() <= i32::MAX,
        y + 8 * scale <= i32::MAX,
        8 * scale <= i32::MAX,
    ensures
        r@ == ops@ + text_ops(font@, text@, x as int, y as int, scale as int),
        final(fb).paints(base@, r@),
{
    let n = text.unicode_len();
    let ghost s = text@;
    let ghost sc = scale as int;
    let ghost mut done: Seq<Op> = Seq::empty();
    let mut cx: i32 = x;
    let mut i: usize = 0;
    assert(ops@ + done =~= ops@);
    assert(s.skip(0) =~= s);
    while i < n
        invariant
            n == s.len(),
            s == text@,
            sc == scale,
            scale >= 1,
            i <= n,
            y + 8 * scale <= i32::MAX,
            8 * scale <= i32::MAX,
            cx + 8 * sc * (n - i) <= i32::MAX,
            fb.paints(base@, ops@ + done),
            done + text_ops(font@, s.skip(i as int), cx as int, y as int, sc) == text_ops(
                font@,
                s,
                x as int,
                y as int,
                sc,
            ),
        decreases n - i,
    {
        let ch = text.get_char(i);
        let ghost rest = s.skip(i as int);
        proof {
            assert(rest[0] == ch);
            assert(rest.drop_first() =~= s.skip(i + 1));
            lemma_scaled_step(sc, (n - i) as int);
        }
        if ch == '\n' {
            i = i + 1;
        } else {
            let ghost mid = *fb;
            fb.draw_char(ch, cx, y, scale, font);
            proof {
                let c = char_ops(font@, ch, cx as int, y as int, sc);
                lemma_paints_concat(base@, mid, *fb, ops@ + done, c);
                assert((ops@ + done) + c =~= ops@ + (done + c));
                assert(done + text_ops(font@, rest, cx as int, y as int, sc) =~= (done + c)
                    + text_ops(font@, s.skip(i + 1), cx + 8 * sc, y as int, sc));
                done = done + c;
            }
            cx = cx + 8 * scale;
            i = i + 1;
        }
    }
    proof {
        assert(s.skip(n as int) =~= Seq::<char>::empty());
        assert(done + Seq::<Op>::empty() =~= done);
    }
    Ghost(ops@ + done)
}

} // verus!
