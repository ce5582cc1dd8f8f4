//! Fixed-resolution monochrome framebuffer (GRiD / CGA-style canvas).
//!
//! A frame is modelled by which on-canvas coordinates are lit: `lit(x, y)`.
//! Every drawing primitive states exactly which pixels it turns on, off or
//! over, and that every other pixel keeps its value.
use vstd::prelude::*;

verus! {

/// Logical display width of the GRiD-style canvas.
pub const WIDTH: usize = 640;

/// Tall enough for options panel baseline at y≈212 plus margin.
pub const HEIGHT: usize = 240;

/// The coordinate lies on the canvas.
pub open spec fn on_canvas(x: int, y: int) -> bool {
    0 <= x < WIDTH && 0 <= y < HEIGHT
}

/// Row-major position of an on-canvas coordinate in the pixel buffer.
pub open spec fn cell(x: int, y: int) -> int {
    y * WIDTH + x
}

pub open spec fn abs(v: int) -> int {
    if v < 0 {
        -v
    } else {
        v
    }
}

/// The unit step that moves `a` toward `b` (backwards when they are equal).
pub open spec fn step_toward(a: int, b: int) -> int {
    if a < b {
        1
    } else {
        -1
    }
}

/// The coordinates Bresenham's walk visits from `(x, y)` with error term
/// `err` until it reaches `(x1, y1)`, taking at most `fuel` points. `ax` and
/// `ay` are the absolute spans and `sx`, `sy` the unit steps. On each step
/// the doubled error decides: `2·err ≥ −ay` moves along x, `2·err ≤ ax`
/// moves along y (both may happen).
pub open spec fn bresenham(
    x: int,
    y: int,
    err: int,
    x1: int,
    y1: int,
    ax: int,
    ay: int,
    sx: int,
    sy: int,
    fuel: nat,
) -> Seq<(int, int)>
    decreases fuel,
{
    if fuel == 0 {
        Seq::empty()
    } else if x == x1 && y == y1 {
        seq![(x, y)]
    } else {
        let e2 = 2 * err;
        let nx = if e2 >= -ay {
            x + sx
        } else {
            x
        };
        let e_after_x = if e2 >= -ay {
            err - ay
        } else {
            err
        };
        let ny = if e2 <= ax {
            y + sy
        } else {
            y
        };
        let e_after_y = if e2 <= ax {
            e_after_x + ax
        } else {
            e_after_x
        };
        seq![(x, y)] + bresenham(nx, ny, e_after_y, x1, y1, ax, ay, sx, sy, (fuel - 1) as nat)
    }
}

/// The pixels of the Bresenham line from `(x0, y0)` to `(x1, y1)`, in the
/// order they are drawn. The walk never needs more than `ax + ay + 1` points.
pub open spec fn line_points(x0: int, y0: int, x1: int, y1: int) -> Seq<(int, int)> {
    let ax = abs(x1 - x0);
    let ay = abs(y1 - y0);
    bresenham(
        x0,
        y0,
        ax - ay,
        x1,
        y1,
        ax,
        ay,
        step_toward(x0, x1),
        step_toward(y0, y1),
        (ax + ay + 1) as nat,
    )
}

/// The error term after `i` steps along x and `j` along y.
proof fn lemma_bresenham_err(ax: int, ay: int, i: int, j: int)
    requires
        0 <= ax,
        0 <= ay,
        0 <= i <= ax,
        0 <= j <= ay,
    ensures
        ax * (j + 1) - ay * (i + 2) == ax * (j + 1) - ay * (i + 1) - ay,
        ax * (j + 2) - ay * (i + 1) == ax * (j + 1) - ay * (i + 1) + ax,
        i == ax && j < ay ==> 2 * (ax * (j + 1) - ay * (i + 1)) < -ay,
        j == ay && i < ax ==> 2 * (ax * (j + 1) - ay * (i + 1)) > ax,
{
    assert(ax * (j + 1) - ay * (i + 2) == ax * (j + 1) - ay * (i + 1) - ay) by (nonlinear_arith);
    assert(ax * (j + 2) - ay * (i + 1) == ax * (j + 1) - ay * (i + 1) + ax) by (nonlinear_arith);
    if i == ax && j < ay {
        assert(ax * (j + 1) <= ax * ay) by (nonlinear_arith)
            requires
                0 <= ax,
                j + 1 <= ay,
        ;
        assert(ay * (i + 1) == ay * ax + ay) by (nonlinear_arith)
            requires
                i == ax,
        ;
        assert(ax * ay == ay * ax) by (nonlinear_arith);
    }
    if j == ay && i < ax {
        assert(ay * (i + 1) <= ay * ax) by (nonlinear_arith)
            requires
                0 <= ay,
                i + 1 <= ax,
        ;
        assert(ax * (j + 1) == ax * ay + ax) by (nonlinear_arith)
            requires
                j == ay,
        ;
        assert(ax * ay == ay * ax) by (nonlinear_arith);
    }
}

/// The state of the walk after `i` steps along x and `j` along y from
/// `(x0, y0)` toward `(x1, y1)`.
pub open spec fn bresenham_state(
    x: int,
    y: int,
    err: int,
    x0: int,
    y0: int,
    x1: int,
    y1: int,
    i: int,
    j: int,
) -> bool {
    let ax = abs(x1 - x0);
    let ay = abs(y1 - y0);
    &&& 0 <= i <= ax
    &&& 0 <= j <= ay
    &&& x == if x0 < x1 {
        x0 + i
    } else {
        x0 - i
    }
    &&& y == if y0 < y1 {
        y0 + j
    } else {
        y0 - j
    }
    &&& err == ax * (j + 1) - ay * (i + 1)
}

/// From any reachable state with enough fuel the walk starts where it stands
/// and ends exactly at `(x1, y1)`.
proof fn lemma_bresenham_reaches(
    x: int,
    y: int,
    err: int,
    x0: int,
    y0: int,
    x1: int,
    y1: int,
    i: int,
    j: int,
    fuel: nat,
)
    requires
        bresenham_state(x, y, err, x0, y0, x1, y1, i, j),
        fuel >= (abs(x1 - x0) - i) + (abs(y1 - y0) - j) + 1,
    ensures
        ({
            let w = bresenham(
                x,
                y,
                err,
                x1,
                y1,
                abs(x1 - x0),
                abs(y1 - y0),
                step_toward(x0, x1),
                step_toward(y0, y1),
                fuel,
            );
            &&& w.len() >= 1
            &&& w[0] == (x, y)
            &&& w.last() == (x1, y1)
        }),
    decreases fuel,
{
    let ax = abs(x1 - x0);
    let ay = abs(y1 - y0);
    lemma_bresenham_err(ax, ay, i, j);
    if x == x1 && y == y1 {
    } else {
        let e2 = 2 * err;
        let ni = if e2 >= -ay {
            i + 1
        } else {
            i
        };
        let nj = if e2 <= ax {
            j + 1
        } else {
            j
        };
        let nx = if e2 >= -ay {
            x + step_toward(x0, x1)
        } else {
            x
        };
        let ny = if e2 <= ax {
            y + step_toward(y0, y1)
        } else {
            y
        };
        let e_after_x = if e2 >= -ay {
            err - ay
        } else {
            err
        };
        let ne = if e2 <= ax {
            e_after_x + ax
        } else {
            e_after_x
        };
        lemma_bresenham_reaches(nx, ny, ne, x0, y0, x1, y1, ni, nj, (fuel - 1) as nat);
        let rest = bresenham(
            nx,
            ny,
            ne,
            x1,
            y1,
            ax,
            ay,
            step_toward(x0, x1),
            step_toward(y0, y1),
            (fuel - 1) as nat,
        );
        assert((seq![(x, y)] + rest).last() == rest.last());
    }
}

/// A line starts at its first endpoint and ends at its second, so both are
/// drawn.
pub proof fn lemma_line_endpoints(x0: int, y0: int, x1: int, y1: int)
    ensures
        line_points(x0, y0, x1, y1).len() >= 1,
        line_points(x0, y0, x1, y1)[0] == (x0, y0),
        line_points(x0, y0, x1, y1).last() == (x1, y1),
        line_points(x0, y0, x1, y1).contains((x0, y0)),
        line_points(x0, y0, x1, y1).contains((x1, y1)),
{
    let ax = abs(x1 - x0);
    let ay = abs(y1 - y0);
    assert(ax * (0 + 1) - ay * (0 + 1) == ax - ay) by (nonlinear_arith);
    lemma_bresenham_reaches(x0, y0, ax - ay, x0, y0, x1, y1, 0, 0, (ax + ay + 1) as nat);
    let w = line_points(x0, y0, x1, y1);
    assert(w[w.len() - 1] == (x1, y1));
}

/// Along a row the walk only ever steps along x, one pixel at a time.
proof fn lemma_walk_horizontal(x: int, y: int, x0: int, x1: int, i: int, fuel: nat)
    requires
        0 <= i <= abs(x1 - x0),
        x == if x0 < x1 {
            x0 + i
        } else {
            x0 - i
        },
        fuel >= abs(x1 - x0) - i + 1,
    ensures
        ({
            let w = bresenham(
                x,
                y,
                abs(x1 - x0),
                x1,
                y,
                abs(x1 - x0),
                0,
                step_toward(x0, x1),
                step_toward(y, y),
                fuel,
            );
            &&& w.len() == abs(x1 - x0) - i + 1
            &&& forall|k: int|
                0 <= k < w.len() ==> #[trigger] w[k] == (
                    if x0 < x1 {
                        x + k
                    } else {
                        x - k
                    },
                    y,
                )
        }),
    decreases fuel,
{
    let ax = abs(x1 - x0);
    if x == x1 {
    } else {
        let nx = x + step_toward(x0, x1);
        lemma_walk_horizontal(nx, y, x0, x1, i + 1, (fuel - 1) as nat);
        let rest = bresenham(
            nx,
            y,
            ax,
            x1,
            y,
            ax,
            0,
            step_toward(x0, x1),
            step_toward(y, y),
            (fuel - 1) as nat,
        );
        let w = seq![(x, y)] + rest;
        assert forall|k: int| 0 <= k < w.len() implies #[trigger] w[k] == (
            if x0 < x1 {
                x + k
            } else {
                x - k
            },
            y,
        ) by {
            if k > 0 {
                assert(w[k] == rest[k - 1]);
            }
        }
    }
}

/// Along a column the walk only ever steps along y, one pixel at a time.
proof fn lemma_walk_vertical(x: int, y: int, y0: int, y1: int, j: int, fuel: nat)
    requires
        0 <= j <= abs(y1 - y0),
        y == if y0 < y1 {
            y0 + j
        } else {
            y0 - j
        },
        fuel >= abs(y1 - y0) - j + 1,
    ensures
        ({
            let w = bresenham(
                x,
                y,
                -abs(y1 - y0),
                x,
                y1,
                0,
                abs(y1 - y0),
                step_toward(x, x),
                step_toward(y0, y1),
                fuel,
            );
            &&& w.len() == abs(y1 - y0) - j + 1
            &&& forall|k: int|
                0 <= k < w.len() ==> #[trigger] w[k] == (
                    x,
                    if y0 < y1 {
                        y + k
                    } else {
                        y - k
                    },
                )
        }),
    decreases fuel,
{
    let ay = abs(y1 - y0);
    if y == y1 {
    } else {
        let ny = y + step_toward(y0, y1);
        lemma_walk_vertical(x, ny, y0, y1, j + 1, (fuel - 1) as nat);
        let rest = bresenham(
            x,
            ny,
            -ay,
            x,
            y1,
            0,
            ay,
            step_toward(x, x),
            step_toward(y0, y1),
            (fuel - 1) as nat,
        );
        let w = seq![(x, y)] + rest;
        assert forall|k: int| 0 <= k < w.len() implies #[trigger] w[k] == (
            x,
            if y0 < y1 {
                y + k
            } else {
                y - k
            },
        ) by {
            if k > 0 {
                assert(w[k] == rest[k - 1]);
            }
        }
    }
}

pub open spec fn min(a: int, b: int) -> int {
    if a <= b {
        a
    } else {
        b
    }
}

pub open spec fn max(a: int, b: int) -> int {
    if a <= b {
        b
    } else {
        a
    }
}

/// A line along a row draws exactly the pixels of that row between its
/// endpoints.
pub proof fn lemma_line_horizontal(x0: int, x1: int, y: int)
    ensures
        forall|a: int, b: int|
            line_points(x0, y, x1, y).contains((a, b)) <==> (b == y && min(x0, x1) <= a <= max(
                x0,
                x1,
            )),
{
    let ax = abs(x1 - x0);
    lemma_walk_horizontal(x0, y, x0, x1, 0, (ax + 1) as nat);
    let w = line_points(x0, y, x1, y);
    assert forall|a: int, b: int| w.contains((a, b)) <==> (b == y && min(x0, x1) <= a <= max(
        x0,
        x1,
    )) by {
        if b == y && min(x0, x1) <= a <= max(x0, x1) {
            let k = abs(a - x0);
            assert(w[k] == (a, b));
        }
        if w.contains((a, b)) {
            let k = choose|k: int| 0 <= k < w.len() && w[k] == (a, b);
            assert(w[k] == (a, b));
        }
    }
}

/// A line along a column draws exactly the pixels of that column between its
/// endpoints.
pub proof fn lemma_line_vertical(x: int, y0: int, y1: int)
    ensures
        forall|a: int, b: int|
            line_points(x, y0, x, y1).contains((a, b)) <==> (a == x && min(y0, y1) <= b <= max(
                y0,
                y1,
            )),
{
    let ay = abs(y1 - y0);
    lemma_walk_vertical(x, y0, y0, y1, 0, (ay + 1) as nat);
    let w = line_points(x, y0, x, y1);
    assert forall|a: int, b: int| w.contains((a, b)) <==> (a == x && min(y0, y1) <= b <= max(
        y0,
        y1,
    )) by {
        if a == x && min(y0, y1) <= b <= max(y0, y1) {
            let k = abs(b - y0);
            assert(w[k] == (a, b));
        }
        if w.contains((a, b)) {
            let k = choose|k: int| 0 <= k < w.len() && w[k] == (a, b);
            assert(w[k] == (a, b));
        }
    }
}

/// After drawing a line along row `y` over `before`, exactly the row's pixels
/// between the endpoints have been added.
pub proof fn lemma_drawn_row(before: Framebuffer, after: Framebuffer, x0: int, x1: int, y: int)
    requires
        after.drawn_over(before, line_points(x0, y, x1, y)),
    ensures
        forall|a: int, b: int|
            on_canvas(a, b) ==> #[trigger] after.lit(a, b) == (before.lit(a, b) || (b == y && min(
                x0,
                x1,
            ) <= a <= max(x0, x1))),
{
    lemma_line_horizontal(x0, x1, y);
}

/// After drawing a line along column `x` over `before`, exactly the column's
/// pixels between the endpoints have been added.
pub proof fn lemma_drawn_column(before: Framebuffer, after: Framebuffer, x: int, y0: int, y1: int)
    requires
        after.drawn_over(before, line_points(x, y0, x, y1)),
    ensures
        forall|a: int, b: int|
            on_canvas(a, b) ==> #[trigger] after.lit(a, b) == (before.lit(a, b) || (a == x && min(
                y0,
                y1,
            ) <= b <= max(y0, y1))),
{
    lemma_line_vertical(x, y0, y1);
}

/// Every on-canvas coordinate has its own cell inside the buffer.
pub proof fn lemma_cell(x: int, y: int, a: int, b: int)
    requires
        on_canvas(x, y),
        on_canvas(a, b),
    ensures
        0 <= cell(x, y) < WIDTH * HEIGHT,
        cell(x, y) == cell(a, b) ==> x == a && y == b,
{
}

/// 1-bit framebuffer with GRiD-like draw primitives.
#[derive(Clone)]
pub struct Framebuffer {
    /// Packed pixels: true = lit (phosphor on).
    pub pixels: Vec<bool>,
}

/// `(a, b)` lies in the `w` × `h` rectangle whose top-left pixel is `(x, y)`.
pub open spec fn in_rect(a: int, b: int, x: int, y: int, w: int, h: int) -> bool {
    x <= a < x + w && y <= b < y + h
}

/// The pixels of a rectangle outline: top, bottom, left and right edges, in
/// drawing order.
pub open spec fn outline_points(x: int, y: int, w: int, h: int) -> Seq<(int, int)> {
    let x1 = x + w - 1;
    let y1 = y + h - 1;
    line_points(x, y, x1, y) + line_points(x, y1, x1, y1) + line_points(x, y, x, y1)
        + line_points(x1, y, x1, y1)
}

/// An outline is exactly the border of its rectangle: the pixels of the
/// rectangle in its first or last column or row.
pub proof fn lemma_outline_is_border(x: int, y: int, w: int, h: int)
    requires
        w > 0,
        h > 0,
    ensures
        forall|a: int, b: int|
            outline_points(x, y, w, h).contains((a, b)) <==> (in_rect(a, b, x, y, w, h) && (a == x
                || a == x + w - 1 || b == y || b == y + h - 1)),
{
    let x1 = x + w - 1;
    let y1 = y + h - 1;
    lemma_line_horizontal(x, x1, y);
    lemma_line_horizontal(x, x1, y1);
    lemma_line_vertical(x, y, y1);
    lemma_line_vertical(x1, y, y1);
    let top = line_points(x, y, x1, y);
    let bottom = line_points(x, y1, x1, y1);
    let left = line_points(x, y, x, y1);
    let right = line_points(x1, y, x1, y1);
    assert forall|a: int, b: int| outline_points(x, y, w, h).contains((a, b)) <==> (in_rect(
        a,
        b,
        x,
        y,
        w,
        h,
    ) && (a == x || a == x + w - 1 || b == y || b == y + h - 1)) by {
        lemma_concat_contains(top, bottom, (a, b));
        lemma_concat_contains(top + bottom, left, (a, b));
        lemma_concat_contains(top + bottom + left, right, (a, b));
    }
}

proof fn lemma_concat_contains(s: Seq<(int, int)>, t: Seq<(int, int)>, p: (int, int))
    ensures
        (s + t).contains(p) <==> (s.contains(p) || t.contains(p)),
{
    if s.contains(p) {
        let k = choose|k: int| 0 <= k < s.len() && s[k] == p;
        assert((s + t)[k] == p);
    }
    if t.contains(p) {
        let k = choose|k: int| 0 <= k < t.len() && t[k] == p;
        assert((s + t)[s.len() + k] == p);
    }
    if (s + t).contains(p) {
        let k = choose|k: int| 0 <= k < (s + t).len() && (s + t)[k] == p;
        if k < s.len() {
            assert(s[k] == p);
        } else {
            assert(t[k - s.len()] == p);
        }
    }
}

/// The eight symmetric images of `(px, py)` around `(cx, cy)`, in plotting
/// order.
pub open spec fn octants(cx: int, cy: int, px: int, py: int) -> Seq<(int, int)> {
    seq![
        (cx + px, cy - py),
        (cx - px, cy + py),
        (cx - px, cy - py),
        (cx + px, cy + py),
        (cx + py, cy - px),
        (cx - py, cy + px),
        (cx - py, cy - px),
        (cx + py, cy + px),
    ]
}

/// How far the walk still is from the 45° diagonal where it stops.
pub open spec fn diagonal_gap(x: int, y: int) -> int {
    if y > x {
        y - x
    } else {
        0
    }
}

/// The midpoint circle walk through one octant from `(x, y)` with decision
/// term `d` and its increments `de` (east step) and `dse` (south-east step),
/// each new position plotted in all eight octants.
pub open spec fn midpoint_walk(cx: int, cy: int, x: int, y: int, d: int, de: int, dse: int) -> Seq<
    (int, int),
>
    decreases diagonal_gap(x, y),
{
    if y > x {
        let east = d < 0;
        let ny = if east {
            y
        } else {
            y - 1
        };
        let nd = if east {
            d + de
        } else {
            d + dse
        };
        let ndse = if east {
            dse + 2
        } else {
            dse + 4
        };
        octants(cx, cy, x + 1, ny) + midpoint_walk(cx, cy, x + 1, ny, nd, de + 2, ndse)
    } else {
        Seq::empty()
    }
}

/// The pixels of the midpoint circle of radius `rad` around `(cx, cy)`, in
/// drawing order; nothing for a radius that is not positive.
pub open spec fn circle_points(cx: int, cy: int, rad: int) -> Seq<(int, int)> {
    if rad <= 0 {
        Seq::empty()
    } else {
        octants(cx, cy, 0, rad) + midpoint_walk(cx, cy, 0, rad, 1 - rad, 3, 5 - 2 * rad)
    }
}

pub open spec fn fits_i32(v: int) -> bool {
    i32::MIN <= v <= i32::MAX
}

/// The decision term of the midpoint walk at `(x, y)`, its two updates, and a
/// bound that keeps it inside 64 bits.
proof fn lemma_midpoint_term(x: int, y: int, rad: int)
    requires
        0 <= x <= rad,
        0 <= y <= rad,
        rad < 0x4000_0000,
    ensures
        (x + 1) * (x + 1) + 2 * (x + 1) + y * y - y + 1 - rad * rad == (x * x + 2 * x + y * y - y
            + 1 - rad * rad) + (2 * x + 3),
        (x + 1) * (x + 1) + 2 * (x + 1) + (y - 1) * (y - 1) - (y - 1) + 1 - rad * rad == (x * x + 2
            * x + y * y - y + 1 - rad * rad) + (2 * x - 2 * y + 5),
        -0x4000_0000_0000_0000 <= x * x + 2 * x + y * y - y + 1 - rad * rad <= 0x4000_0000_0000_0000,
{
    assert((x + 1) * (x + 1) == x * x + 2 * x + 1) by (nonlinear_arith);
    assert((y - 1) * (y - 1) == y * y - 2 * y + 1) by (nonlinear_arith);
    assert(x * x <= rad * rad) by (nonlinear_arith)
        requires
            0 <= x <= rad,
    ;
    assert(y * y <= rad * rad) by (nonlinear_arith)
        requires
            0 <= y <= rad,
    ;
    assert(rad * rad < 0x1000_0000_0000_0000) by (nonlinear_arith)
        requires
            0 <= rad < 0x4000_0000,
    ;
    assert(0 <= x * x) by (nonlinear_arith);
    assert(0 <= y * y) by (nonlinear_arith);
}

/// For a window `ww` × `wh`, window pixel `n` (row-major) shows the canvas
/// pixel that nearest-neighbour scaling maps it to.
pub open spec fn window_source(n: int, ww: int, wh: int) -> (int, int) {
    ((n % ww) * WIDTH / ww, (n / ww) * HEIGHT / wh)
}

/// Window pixel `row * ww + col` is pixel `col` of row `row`, and its source
/// lies on the canvas.
proof fn lemma_window_pixel(row: int, col: int, ww: int, wh: int)
    requires
        0 <= row < wh,
        0 <= col < ww,
    ensures
        0 <= row * ww + col < ww * wh,
        row * ww + ww <= ww * wh,
        ww * wh == wh * ww,
        (row * ww + col) % ww == col,
        (row * ww + col) / ww == row,
        (row + 1) * ww == row * ww + ww,
        0 <= col * WIDTH / ww < WIDTH,
        0 <= row * HEIGHT / wh < HEIGHT,
        on_canvas(window_source(row * ww + col, ww, wh).0, window_source(row * ww + col, ww, wh).1),
{
    assert(0 <= row * ww + col < ww * wh) by (nonlinear_arith)
        requires
            0 <= row < wh,
            0 <= col < ww,
    ;
    assert((row + 1) * ww == row * ww + ww) by (nonlinear_arith);
    assert(row * ww + ww <= ww * wh) by (nonlinear_arith)
        requires
            0 <= row < wh,
            0 <= col < ww,
    ;
    assert(ww * wh == wh * ww) by (nonlinear_arith);
    vstd::arithmetic::div_mod::lemma_fundamental_div_mod_converse(row * ww + col, ww, row, col);
    lemma_scaled_below(col, ww, WIDTH as int);
    lemma_scaled_below(row, wh, HEIGHT as int);
}

/// Scaling an index below `n` by `size / n` stays below `size`.
proof fn lemma_scaled_below(i: int, n: int, size: int)
    requires
        0 <= i < n,
        0 < size,
    ensures
        0 <= i * size / n < size,
{
    let q = i * size / n;
    vstd::arithmetic::div_mod::lemma_fundamental_div_mod(i * size, n);
    assert(0 <= i * size) by (nonlinear_arith)
        requires
            0 <= i,
            0 < size,
    ;
    assert(0 <= q) by {
        vstd::arithmetic::div_mod::lemma_div_pos_is_pos(i * size, n);
    }
    if q >= size {
        assert(n * q >= n * size) by (nonlinear_arith)
            requires
                q >= size,
                n > 0,
        ;
        assert(n * size > i * size) by (nonlinear_arith)
            requires
                n > i,
                size > 0,
        ;
        assert(false);
    }
}

/// Inverting the same rectangle twice gives back the frame it started from.
pub proof fn lemma_invert_twice(
    a: Framebuffer,
    b: Framebuffer,
    c: Framebuffer,
    x: int,
    y: int,
    w: int,
    h: int,
)
    requires
        a.wf(),
        b.inverted_in(a, x, y, w, h),
        c.inverted_in(b, x, y, w, h),
    ensures
        c.pixels@ == a.pixels@,
{
    assert forall|k: int| 0 <= k < a.pixels@.len() implies c.pixels@[k] == a.pixels@[k] by {
        let px = k % (WIDTH as int);
        let py = k / (WIDTH as int);
        assert(on_canvas(px, py));
        assert(cell(px, py) == k);
        assert(c.lit(px, py) == a.lit(px, py));
    }
    assert(c.pixels@ =~= a.pixels@);
}

/// The four compass points of a circle are drawn.
pub proof fn lemma_circle_compass(cx: int, cy: int, rad: int)
    requires
        rad > 0,
    ensures
        circle_points(cx, cy, rad).contains((cx, cy - rad)),
        circle_points(cx, cy, rad).contains((cx, cy + rad)),
        circle_points(cx, cy, rad).contains((cx + rad, cy)),
        circle_points(cx, cy, rad).contains((cx - rad, cy)),
{
    let pts = circle_points(cx, cy, rad);
    assert(pts[0] == (cx, cy - rad));
    assert(pts[1] == (cx, cy + rad));
    assert(pts[4] == (cx + rad, cy));
    assert(pts[6] == (cx - rad, cy));
}

/// The images of `p` under the symmetries of a circle centred at `(cx, cy)`:
/// mirroring left–right and top–bottom, and swapping the axes.
pub open spec fn mirror_x(cx: int, p: (int, int)) -> (int, int) {
    (2 * cx - p.0, p.1)
}

pub open spec fn mirror_y(cy: int, p: (int, int)) -> (int, int) {
    (p.0, 2 * cy - p.1)
}

pub open spec fn swap_axes(cx: int, cy: int, p: (int, int)) -> (int, int) {
    (cx + (p.1 - cy), cy + (p.0 - cx))
}

/// The eight images of one point are closed under the circle's symmetries.
proof fn lemma_octants_symmetric(cx: int, cy: int, px: int, py: int, p: (int, int))
    requires
        octants(cx, cy, px, py).contains(p),
    ensures
        octants(cx, cy, px, py).contains(mirror_x(cx, p)),
        octants(cx, cy, px, py).contains(mirror_y(cy, p)),
        octants(cx, cy, px, py).contains(swap_axes(cx, cy, p)),
{
    let o = octants(cx, cy, px, py);
    let k = choose|k: int| 0 <= k < o.len() && o[k] == p;
    assert(o[0] == (cx + px, cy - py));
    assert(o[1] == (cx - px, cy + py));
    assert(o[2] == (cx - px, cy - py));
    assert(o[3] == (cx + px, cy + py));
    assert(o[4] == (cx + py, cy - px));
    assert(o[5] == (cx - py, cy + px));
    assert(o[6] == (cx - py, cy - px));
    assert(o[7] == (cx + py, cy + px));
}

/// Every point of the walk is one of the eight images of some walk position,
/// so the walk is closed under the circle's symmetries.
proof fn lemma_walk_symmetric(
    cx: int,
    cy: int,
    x: int,
    y: int,
    d: int,
    de: int,
    dse: int,
    p: (int, int),
)
    requires
        midpoint_walk(cx, cy, x, y, d, de, dse).contains(p),
    ensures
        midpoint_walk(cx, cy, x, y, d, de, dse).contains(mirror_x(cx, p)),
        midpoint_walk(cx, cy, x, y, d, de, dse).contains(mirror_y(cy, p)),
        midpoint_walk(cx, cy, x, y, d, de, dse).contains(swap_axes(cx, cy, p)),
    decreases diagonal_gap(x, y),
{
    if y > x {
        let east = d < 0;
        let ny = if east {
            y
        } else {
            y - 1
        };
        let nd = if east {
            d + de
        } else {
            d + dse
        };
        let ndse = if east {
            dse + 2
        } else {
            dse + 4
        };
        let head = octants(cx, cy, x + 1, ny);
        let rest = midpoint_walk(cx, cy, x + 1, ny, nd, de + 2, ndse);
        lemma_concat_contains(head, rest, p);
        lemma_concat_contains(head, rest, mirror_x(cx, p));
        lemma_concat_contains(head, rest, mirror_y(cy, p));
        lemma_concat_contains(head, rest, swap_axes(cx, cy, p));
        if head.contains(p) {
            lemma_octants_symmetric(cx, cy, x + 1, ny, p);
        } else {
            lemma_walk_symmetric(cx, cy, x + 1, ny, nd, de + 2, ndse, p);
        }
    }
}

/// A drawn circle is symmetric: with any pixel it also draws its mirror images
/// left–right and top–bottom about the centre, and its reflection across the
/// diagonal.
pub proof fn lemma_circle_symmetric(cx: int, cy: int, rad: int, p: (int, int))
    requires
        circle_points(cx, cy, rad).contains(p),
    ensures
        circle_points(cx, cy, rad).contains(mirror_x(cx, p)),
        circle_points(cx, cy, rad).contains(mirror_y(cy, p)),
        circle_points(cx, cy, rad).contains(swap_axes(cx, cy, p)),
{
    if rad > 0 {
        let head = octants(cx, cy, 0, rad);
        let rest = midpoint_walk(cx, cy, 0, rad, 1 - rad, 3, 5 - 2 * rad);
        lemma_concat_contains(head, rest, p);
        lemma_concat_contains(head, rest, mirror_x(cx, p));
        lemma_concat_contains(head, rest, mirror_y(cy, p));
        lemma_concat_contains(head, rest, swap_axes(cx, cy, p));
        if head.contains(p) {
            lemma_octants_symmetric(cx, cy, 0, rad, p);
        } else {
            lemma_walk_symmetric(cx, cy, 0, rad, 1 - rad, 3, 5 - 2 * rad, p);
        }
    }
}

/// Column `col` (0 = leftmost) of an 8-pixel glyph row is set.
pub open spec fn glyph_bit(bits: u8, col: int) -> bool {
    bits & (0x80u8 >> (col as u8)) != 0u8
}

/// The `scale` × `scale` block of glyph cell (`row`, `col`) drawn at `(x, y)`
/// covers `(a, b)`, and that cell is set.
pub open spec fn glyph_cell_covers(
    glyph: Seq<u8>,
    x: int,
    y: int,
    scale: int,
    row: int,
    col: int,
    a: int,
    b: int,
) -> bool {
    &&& 0 <= row < 8
    &&& 0 <= col < 8
    &&& glyph_bit(glyph[row], col)
    &&& in_rect(a, b, x + col * scale, y + row * scale, scale, scale)
}

/// Some set cell before (`row`, `col`) in reading order covers `(a, b)`.
pub open spec fn glyph_covers_before(
    glyph: Seq<u8>,
    x: int,
    y: int,
    scale: int,
    row: int,
    col: int,
    a: int,
    b: int,
) -> bool {
    exists|r: int, c: int|
        (r < row || (r == row && c < col)) && #[trigger] glyph_cell_covers(
            glyph,
            x,
            y,
            scale,
            r,
            c,
            a,
            b,
        )
}

/// Drawing `pts` over `before`, then `extra` over that, is drawing `pts + extra`.
proof fn lemma_drawn_over_concat(
    before: Framebuffer,
    mid: Framebuffer,
    after: Framebuffer,
    pts: Seq<(int, int)>,
    extra: Seq<(int, int)>,
)
    requires
        mid.drawn_over(before, pts),
        after.drawn_over(mid, extra),
    ensures
        after.drawn_over(before, pts + extra),
{
    assert forall|x: int, y: int| on_canvas(x, y) implies #[trigger] after.lit(x, y) == (before.lit(
        x,
        y,
    ) || (pts + extra).contains((x, y))) by {
        assert(mid.lit(x, y) == (before.lit(x, y) || pts.contains((x, y))));
        if pts.contains((x, y)) {
            let k = choose|k: int| 0 <= k < pts.len() && pts[k] == (x, y);
            assert((pts + extra)[k] == (x, y));
        }
        if extra.contains((x, y)) {
            let k = choose|k: int| 0 <= k < extra.len() && extra[k] == (x, y);
            assert((pts + extra)[pts.len() + k] == (x, y));
        }
        if (pts + extra).contains((x, y)) {
            let k = choose|k: int| 0 <= k < (pts + extra).len() && (pts + extra)[k] == (x, y);
            if k < pts.len() {
                assert(pts[k] == (x, y));
            } else {
                assert(extra[k - pts.len()] == (x, y));
            }
        }
    }
}

impl Default for Framebuffer {
    fn default() -> (r: Self)
        ensures
            r.wf(),
            forall|x: int, y: int| !#[trigger] r.lit(x, y),
    {
        Self::new()
    }
}

impl Framebuffer {
    /// One cell per canvas coordinate.
    pub open spec fn wf(&self) -> bool {
        self.pixels@.len() == WIDTH * HEIGHT
    }

    /// The pixel at `(x, y)` is on; off the canvas nothing is lit.
    pub open spec fn lit(&self, x: int, y: int) -> bool {
        on_canvas(x, y) && self.pixels@[cell(x, y)]
    }

    /// `self` is `before` with every listed coordinate on the canvas turned on
    /// and nothing else changed.
    pub open spec fn drawn_over(&self, before: Framebuffer, pts: Seq<(int, int)>) -> bool {
        &&& self.wf()
        &&& forall|x: int, y: int|
            on_canvas(x, y) ==> #[trigger] self.lit(x, y) == (before.lit(x, y) || pts.contains(
                (x, y),
            ))
    }

    /// `self` is `before` with every pixel of the `w` × `h` rectangle at
    /// `(x, y)` flipped and nothing else changed.
    pub open spec fn inverted_in(&self, before: Framebuffer, x: int, y: int, w: int, h: int) -> bool {
        &&& self.wf()
        &&& forall|a: int, b: int|
            on_canvas(a, b) ==> #[trigger] self.lit(a, b) == if in_rect(a, b, x, y, w, h) {
                !before.lit(a, b)
            } else {
                before.lit(a, b)
            }
    }

    /// `self` is `before` with every pixel of the `w` × `h` rectangle at
    /// `(x, y)` set to `on` and nothing else changed.
    pub open spec fn filled_in(&self, before: Framebuffer, x: int, y: int, w: int, h: int, on: bool) -> bool {
        &&& self.wf()
        &&& forall|a: int, b: int|
            on_canvas(a, b) ==> #[trigger] self.lit(a, b) == if in_rect(a, b, x, y, w, h) {
                on
            } else {
                before.lit(a, b)
            }
    }

    pub fn new() -> (r: Self)
        ensures
            r.wf(),
            forall|x: int, y: int| !#[trigger] r.lit(x, y),
    {
        let pixels = vec![false; WIDTH * HEIGHT];
        assert forall|i: int| 0 <= i < pixels@.len() implies !pixels@[i] by {
            assert(cloned(false, pixels@[i]));
        }
        Self { pixels }
    }

    pub fn clear(&mut self)
        requires
            old(self).wf(),
        ensures
            final(self).wf(),
            forall|x: int, y: int| !#[trigger] final(self).lit(x, y),
    {
        let mut i: usize = 0;
        while i < self.pixels.len()
            invariant
                self.wf(),
                i <= self.pixels@.len(),
                forall|j: int| 0 <= j < i ==> !self.pixels@[j],
            decreases self.pixels@.len() - i,
        {
            self.pixels[i] = false;
            i = i + 1;
        }
    }

    pub fn in_bounds(x: i32, y: i32) -> (r: bool)
        ensures
            r == on_canvas(x as int, y as int),
    {
        x >= 0 && y >= 0 && (x as usize) < WIDTH && (y as usize) < HEIGHT
    }

    /// Turns the pixel on or off; a coordinate off the canvas changes nothing.
    pub fn set(&mut self, x: i32, y: i32, on: bool)
        requires
            old(self).wf(),
        ensures
            final(self).pixels@ == if on_canvas(x as int, y as int) {
                old(self).pixels@.update(cell(x as int, y as int), on)
            } else {
                old(self).pixels@
            },
            final(self).wf(),
            forall|a: int, b: int|
                on_canvas(a, b) ==> #[trigger] final(self).lit(a, b) == if a == x && b == y {
                    on
                } else {
                    old(self).lit(a, b)
                },
    {
        if Self::in_bounds(x, y) {
            self.pixels[y as usize * WIDTH + x as usize] = on;
        }
        proof {
            assert forall|a: int, b: int| on_canvas(a, b) implies #[trigger] self.lit(a, b)
                == if a == x && b == y {
                on
            } else {
                old(self).lit(a, b)
            } by {
                if on_canvas(x as int, y as int) {
                    lemma_cell(a, b, x as int, y as int);
                }
            }
        }
    }

    pub fn get(&self, x: i32, y: i32) -> (r: bool)
        requires
            self.wf(),
        ensures
            r == self.lit(x as int, y as int),
    {
        if Self::in_bounds(x, y) {
            self.pixels[y as usize * WIDTH + x as usize]
        } else {
            false
        }
    }

    pub fn pixel(&mut self, x: i32, y: i32)
        requires
            old(self).wf(),
        ensures
            final(self).drawn_over(*old(self), seq![(x as int, y as int)]),
    {
        self.set(x, y, true);
        proof {
            assert forall|a: int, b: int| on_canvas(a, b) implies #[trigger] self.lit(a, b) == (
            old(self).lit(a, b) || seq![(x as int, y as int)].contains((a, b))) by {
                if on_canvas(x as int, y as int) {
                    lemma_cell(a, b, x as int, y as int);
                }
                if (a, b) == (x as int, y as int) {
                    assert(seq![(x as int, y as int)][0] == (a, b));
                }
            }
        }
    }

    /// Bresenham line (WinDrawLine).
    pub fn line(&mut self, x0: i32, y0: i32, x1: i32, y1: i32)
        requires
            old(self).wf(),
        ensures
            final(self).drawn_over(*old(self), line_points(x0 as int, y0 as int, x1 as int, y1 as int)),
    {
        let mut x = x0;
        let mut y = y0;
        let dx: i64 = if x1 as i64 - x0 as i64 >= 0 {
            x1 as i64 - x0 as i64
        } else {
            x0 as i64 - x1 as i64
        };
        let sx: i32 = if x0 < x1 {
            1
        } else {
            -1
        };
        let dy: i64 = if y1 as i64 - y0 as i64 >= 0 {
            y0 as i64 - y1 as i64
        } else {
            y1 as i64 - y0 as i64
        };
        let sy: i32 = if y0 < y1 {
            1
        } else {
            -1
        };
        let mut err: i64 = dx + dy;
        let ghost ax: int = dx as int;
        let ghost ay: int = -dy;
        let ghost total = line_points(x0 as int, y0 as int, x1 as int, y1 as int);
        let ghost mut i: int = 0;
        let ghost mut j: int = 0;
        let ghost mut done: Seq<(int, int)> = Seq::empty();
        proof {
            assert(self.drawn_over(*old(self), done));
            assert(total == done + total);
        }
        loop
            invariant_except_break
                self.drawn_over(*old(self), done),
                ax == abs(x1 - x0),
                ay == abs(y1 - y0),
                dx == ax,
                dy == -ay,
                sx == step_toward(x0 as int, x1 as int),
                sy == step_toward(y0 as int, y1 as int),
                0 <= i <= ax,
                0 <= j <= ay,
                done.len() <= i + j,
                sx == 1 ==> x == x0 + i && x1 == x0 + ax,
                sx == -1 ==> x == x0 - i && x1 == x0 - ax,
                sy == 1 ==> y == y0 + j && y1 == y0 + ay,
                sy == -1 ==> y == y0 - j && y1 == y0 - ay,
                err == ax * (j + 1) - ay * (i + 1),
                -2 * ay <= err <= 2 * ax,
                total == done + bresenham(
                    x as int,
                    y as int,
                    err as int,
                    x1 as int,
                    y1 as int,
                    ax,
                    ay,
                    sx as int,
                    sy as int,
                    (ax + ay + 1 - done.len()) as nat,
                ),
            ensures
                self.drawn_over(*old(self), total),
            decreases (ax - i) + (ay - j),
        {
            let ghost before = *self;
            self.pixel(x, y);
            proof {
                lemma_drawn_over_concat(*old(self), before, *self, done, seq![(x as int, y as int)]);
                lemma_bresenham_err(ax, ay, i, j);
            }
            if x == x1 && y == y1 {
                assert(total == done + seq![(x as int, y as int)]);
                break;
            }
            let ghost p = (x as int, y as int);
            let ghost fuel = (ax + ay + 1 - done.len()) as nat;
            let ghost rest = bresenham(
                x as int,
                y as int,
                err as int,
                x1 as int,
                y1 as int,
                ax,
                ay,
                sx as int,
                sy as int,
                fuel,
            );
            let e2 = 2 * err;
            if e2 >= dy {
                err = err + dy;
                x = x + sx;
                proof {
                    i = i + 1;
                }
            }
            if e2 <= dx {
                err = err + dx;
                y = y + sy;
                proof {
                    j = j + 1;
                }
            }
            proof {
                let next = bresenham(
                    x as int,
                    y as int,
                    err as int,
                    x1 as int,
                    y1 as int,
                    ax,
                    ay,
                    sx as int,
                    sy as int,
                    (fuel - 1) as nat,
                );
                assert(rest == seq![p] + next);
                assert(done + rest == (done + seq![p]) + next);
                done = done + seq![p];
            }
        }
    }
    /// Draw a rectangle outline of exact pixel size `w` × `h` (edges at `x` and `x+w-1`).
    pub fn rect_outline(&mut self, x: i32, y: i32, w: i32, h: i32)
        requires
            old(self).wf(),
            w <= 0 || h <= 0 || (x + w <= i32::MAX && y + h <= i32::MAX),
        ensures
            w <= 0 || h <= 0 ==> *final(self) == *old(self),
            w > 0 && h > 0 ==> final(self).drawn_over(
                *old(self),
                outline_points(x as int, y as int, w as int, h as int),
            ),
    {
        if w <= 0 || h <= 0 {
            return;
        }
        let x1 = x + w - 1;
        let y1 = y + h - 1;
        let ghost s0 = *self;
        self.line(x, y, x1, y);
        let ghost s1 = *self;
        self.line(x, y1, x1, y1);
        proof {
            lemma_drawn_over_concat(
                s0,
                s1,
                *self,
                line_points(x as int, y as int, x1 as int, y as int),
                line_points(x as int, y1 as int, x1 as int, y1 as int),
            );
        }
        let ghost s2 = *self;
        self.line(x, y, x, y1);
        proof {
            lemma_drawn_over_concat(
                s0,
                s2,
                *self,
                line_points(x as int, y as int, x1 as int, y as int) + line_points(
                    x as int,
                    y1 as int,
                    x1 as int,
                    y1 as int,
                ),
                line_points(x as int, y as int, x as int, y1 as int),
            );
        }
        let ghost s3 = *self;
        self.line(x1, y, x1, y1);
        proof {
            lemma_drawn_over_concat(
                s0,
                s3,
                *self,
                line_points(x as int, y as int, x1 as int, y as int) + line_points(
                    x as int,
                    y1 as int,
                    x1 as int,
                    y1 as int,
                ) + line_points(x as int, y as int, x as int, y1 as int),
                line_points(x1 as int, y as int, x1 as int, y1 as int),
            );
        }
    }

    /// XOR invert rectangle (WinInvertRectangle) — selection / CRITICAL flash.
    pub fn invert_rect(&mut self, x: i32, y: i32, w: i32, h: i32)
        requires
            old(self).wf(),
        ensures
            final(self).inverted_in(*old(self), x as int, y as int, w as int, h as int),
    {
        if w <= 0 || h <= 0 {
            return;
        }
        let x1: i64 = if x as i64 + w as i64 <= WIDTH as i64 {
            x as i64 + w as i64
        } else {
            WIDTH as i64
        };
        let y1: i64 = if y as i64 + h as i64 <= HEIGHT as i64 {
            y as i64 + h as i64
        } else {
            HEIGHT as i64
        };
        let x0: i64 = if x >= 0 {
            x as i64
        } else {
            0
        };
        let mut py: i64 = if y >= 0 {
            y as i64
        } else {
            0
        };
        while py < y1
            invariant
                self.wf(),
                0 <= x0,
                x1 <= WIDTH,
                y1 <= HEIGHT,
                x0 == if x >= 0 {
                    x as int
                } else {
                    0
                },
                x1 == if x + w <= WIDTH {
                    x + w
                } else {
                    WIDTH as int
                },
                y1 == if y + h <= HEIGHT {
                    y + h
                } else {
                    HEIGHT as int
                },
                0 <= py,
                py >= y,
                forall|a: int, b: int|
                    on_canvas(a, b) ==> #[trigger] self.lit(a, b) == if in_rect(
                        a,
                        b,
                        x as int,
                        y as int,
                        w as int,
                        h as int,
                    ) && b < py {
                        !old(self).lit(a, b)
                    } else {
                        old(self).lit(a, b)
                    },
            decreases y1 - py,
        {
            let mut px: i64 = x0;
            while px < x1
                invariant
                    self.wf(),
                    0 <= x0 <= px,
                    x1 <= WIDTH,
                    0 <= py < y1,
                    y1 <= HEIGHT,
                    py >= y,
                    x0 == if x >= 0 {
                        x as int
                    } else {
                        0
                    },
                    x1 == if x + w <= WIDTH {
                        x + w
                    } else {
                        WIDTH as int
                    },
                    y1 == if y + h <= HEIGHT {
                        y + h
                    } else {
                        HEIGHT as int
                    },
                    px <= x1 || px == x0,
                    forall|a: int, b: int|
                        on_canvas(a, b) ==> #[trigger] self.lit(a, b) == if in_rect(
                            a,
                            b,
                            x as int,
                            y as int,
                            w as int,
                            h as int,
                        ) && (b < py || (b == py && a < px)) {
                            !old(self).lit(a, b)
                        } else {
                            old(self).lit(a, b)
                        },
                decreases x1 - px,
            {
                let i = py as usize * WIDTH + px as usize;
                let ghost before = *self;
                let flipped = !self.pixels[i];
                self.pixels[i] = flipped;
                proof {
                    assert forall|a: int, b: int| on_canvas(a, b) implies #[trigger] self.lit(a, b)
                        == if a == px && b == py {
                        !before.lit(a, b)
                    } else {
                        before.lit(a, b)
                    } by {
                        lemma_cell(a, b, px as int, py as int);
                    }
                    assert forall|a: int, b: int| on_canvas(a, b) implies #[trigger] self.lit(a, b)
                        == if in_rect(a, b, x as int, y as int, w as int, h as int) && (b < py || (b
                        == py && a < px + 1)) {
                        !old(self).lit(a, b)
                    } else {
                        old(self).lit(a, b)
                    } by {
                        assert(before.lit(a, b) == if in_rect(
                            a,
                            b,
                            x as int,
                            y as int,
                            w as int,
                            h as int,
                        ) && (b < py || (b == py && a < px)) {
                            !old(self).lit(a, b)
                        } else {
                            old(self).lit(a, b)
                        });
                    }
                }
                px = px + 1;
            }
            py = py + 1;
        }
    }

    pub fn fill_rect(&mut self, x: i32, y: i32, w: i32, h: i32, on: bool)
        requires
            old(self).wf(),
        ensures
            final(self).filled_in(*old(self), x as int, y as int, w as int, h as int, on),
    {
        if w <= 0 || h <= 0 {
            return;
        }
        let x1: i64 = if x as i64 + w as i64 <= WIDTH as i64 {
            x as i64 + w as i64
        } else {
            WIDTH as i64
        };
        let y1: i64 = if y as i64 + h as i64 <= HEIGHT as i64 {
            y as i64 + h as i64
        } else {
            HEIGHT as i64
        };
        let x0: i64 = if x >= 0 {
            x as i64
        } else {
            0
        };
        let mut py: i64 = if y >= 0 {
            y as i64
        } else {
            0
        };
        while py < y1
            invariant
                self.wf(),
                0 <= x0,
                x1 <= WIDTH,
                y1 <= HEIGHT,
                x0 == if x >= 0 {
                    x as int
                } else {
                    0
                },
                x1 == if x + w <= WIDTH {
                    x + w
                } else {
                    WIDTH as int
                },
                y1 == if y + h <= HEIGHT {
                    y + h
                } else {
                    HEIGHT as int
                },
                0 <= py,
                py >= y,
                forall|a: int, b: int|
                    on_canvas(a, b) ==> #[trigger] self.lit(a, b) == if in_rect(
                        a,
                        b,
                        x as int,
                        y as int,
                        w as int,
                        h as int,
                    ) && b < py {
                        on
                    } else {
                        old(self).lit(a, b)
                    },
            decreases y1 - py,
        {
            let mut px: i64 = x0;
            while px < x1
                invariant
                    self.wf(),
                    0 <= x0 <= px,
                    x1 <= WIDTH,
                    0 <= py < y1,
                    y1 <= HEIGHT,
                    py >= y,
                    x0 == if x >= 0 {
                        x as int
                    } else {
                        0
                    },
                    x1 == if x + w <= WIDTH {
                        x + w
                    } else {
                        WIDTH as int
                    },
                    y1 == if y + h <= HEIGHT {
                        y + h
                    } else {
                        HEIGHT as int
                    },
                    forall|a: int, b: int|
                        on_canvas(a, b) ==> #[trigger] self.lit(a, b) == if in_rect(
                            a,
                            b,
                            x as int,
                            y as int,
                            w as int,
                            h as int,
                        ) && (b < py || (b == py && a < px)) {
                            on
                        } else {
                            old(self).lit(a, b)
                        },
                decreases x1 - px,
            {
                let ghost before = *self;
                self.set(px as i32, py as i32, on);
                proof {
                    assert forall|a: int, b: int| on_canvas(a, b) implies #[trigger] self.lit(a, b)
                        == if in_rect(a, b, x as int, y as int, w as int, h as int) && (b < py || (b
                        == py && a < px + 1)) {
                        on
                    } else {
                        old(self).lit(a, b)
                    } by {
                        assert(before.lit(a, b) == if in_rect(
                            a,
                            b,
                            x as int,
                            y as int,
                            w as int,
                            h as int,
                        ) && (b < py || (b == py && a < px)) {
                            on
                        } else {
                            old(self).lit(a, b)
                        });
                    }
                }
                px = px + 1;
            }
            py = py + 1;
        }
    }
    /// Plots `(px, py)` in all eight octants around `(cx, cy)`.
    fn plot_octants(&mut self, cx: i32, cy: i32, px: i32, py: i32)
        requires
            old(self).wf(),
            fits_i32(cx + px),
            fits_i32(cx - px),
            fits_i32(cx + py),
            fits_i32(cx - py),
            fits_i32(cy + px),
            fits_i32(cy - px),
            fits_i32(cy + py),
            fits_i32(cy - py),
        ensures
            final(self).drawn_over(*old(self), octants(cx as int, cy as int, px as int, py as int)),
    {
        let ghost s0 = *self;
        self.pixel(cx + px, cy - py);
        let ghost mut drawn = seq![(cx + px, cy - py)];
        let ghost s1 = *self;
        self.pixel(cx - px, cy + py);
        proof {
            lemma_drawn_over_concat(s0, s1, *self, drawn, seq![(cx - px, cy + py)]);
            drawn = drawn + seq![(cx - px, cy + py)];
        }
        let ghost s2 = *self;
        self.pixel(cx - px, cy - py);
        proof {
            lemma_drawn_over_concat(s0, s2, *self, drawn, seq![(cx - px, cy - py)]);
            drawn = drawn + seq![(cx - px, cy - py)];
        }
        let ghost s3 = *self;
        self.pixel(cx + px, cy + py);
        proof {
            lemma_drawn_over_concat(s0, s3, *self, drawn, seq![(cx + px, cy + py)]);
            drawn = drawn + seq![(cx + px, cy + py)];
        }
        let ghost s4 = *self;
        self.pixel(cx + py, cy - px);
        proof {
            lemma_drawn_over_concat(s0, s4, *self, drawn, seq![(cx + py, cy - px)]);
            drawn = drawn + seq![(cx + py, cy - px)];
        }
        let ghost s5 = *self;
        self.pixel(cx - py, cy + px);
        proof {
            lemma_drawn_over_concat(s0, s5, *self, drawn, seq![(cx - py, cy + px)]);
            drawn = drawn + seq![(cx - py, cy + px)];
        }
        let ghost s6 = *self;
        self.pixel(cx - py, cy - px);
        proof {
            lemma_drawn_over_concat(s0, s6, *self, drawn, seq![(cx - py, cy - px)]);
            drawn = drawn + seq![(cx - py, cy - px)];
        }
        let ghost s7 = *self;
        self.pixel(cx + py, cy + px);
        proof {
            lemma_drawn_over_concat(s0, s7, *self, drawn, seq![(cx + py, cy + px)]);
            drawn = drawn + seq![(cx + py, cy + px)];
            assert(drawn =~= octants(cx as int, cy as int, px as int, py as int));
        }
    }

    /// Midpoint circle of radius `rad` around `(xcent, ycent)`.
    pub fn circle(&mut self, xcent: i32, ycent: i32, rad: i32)
        requires
            old(self).wf(),
            rad <= 0 || (rad * 2 <= i32::MAX && fits_i32(xcent - rad) && fits_i32(xcent + rad)
                && fits_i32(ycent - rad) && fits_i32(ycent + rad)),
        ensures
            final(self).drawn_over(*old(self), circle_points(xcent as int, ycent as int, rad as int)),
    {
        if rad <= 0 {
            return;
        }
        let mut x: i32 = 0;
        let mut y: i32 = rad;
        let mut d: i64 = 1 - rad as i64;
        let mut d_e: i64 = 3;
        let mut d_se: i64 = -(rad as i64 * 2) + 5;
        let ghost total = circle_points(xcent as int, ycent as int, rad as int);
        self.plot_octants(xcent, ycent, x, y);
        let ghost mut done = octants(xcent as int, ycent as int, 0, rad as int);
        proof {
            lemma_midpoint_term(0, rad as int, rad as int);
            assert(0 * 0 + 2 * 0 + rad * rad - rad + 1 - rad * rad == 1 - rad);
        }
        while y > x
            invariant
                self.drawn_over(*old(self), done),
                0 < rad,
                rad * 2 <= i32::MAX,
                fits_i32(xcent - rad),
                fits_i32(xcent + rad),
                fits_i32(ycent - rad),
                fits_i32(ycent + rad),
                0 <= x <= rad,
                0 <= y <= rad,
                d_e == 2 * x + 3,
                d_se == 2 * x - 2 * y + 5,
                d == x * x + 2 * x + y * y - y + 1 - rad * rad,
                total == done + midpoint_walk(
                    xcent as int,
                    ycent as int,
                    x as int,
                    y as int,
                    d as int,
                    d_e as int,
                    d_se as int,
                ),
            decreases diagonal_gap(x as int, y as int),
        {
            let ghost rest = midpoint_walk(
                xcent as int,
                ycent as int,
                x as int,
                y as int,
                d as int,
                d_e as int,
                d_se as int,
            );
            proof {
                lemma_midpoint_term(x as int, y as int, rad as int);
                lemma_midpoint_term(x + 1, y as int, rad as int);
                lemma_midpoint_term(x + 1, y - 1, rad as int);
            }
            if d < 0 {
                d = d + d_e;
                d_e = d_e + 2;
                d_se = d_se + 2;
                x = x + 1;
            } else {
                d = d + d_se;
                d_e = d_e + 2;
                d_se = d_se + 4;
                x = x + 1;
                y = y - 1;
            }
            let ghost before = *self;
            self.plot_octants(xcent, ycent, x, y);
            proof {
                let pts = octants(xcent as int, ycent as int, x as int, y as int);
                lemma_drawn_over_concat(*old(self), before, *self, done, pts);
                let next = midpoint_walk(
                    xcent as int,
                    ycent as int,
                    x as int,
                    y as int,
                    d as int,
                    d_e as int,
                    d_se as int,
                );
                assert(rest == pts + next);
                assert(done + rest == (done + pts) + next);
                done = done + pts;
            }
        }
        assert(total == done + Seq::<(int, int)>::empty());
        assert(done + Seq::<(int, int)>::empty() =~= done);
    }
    pub fn text_width(text: &str, scale: i32) -> (r: i32)
        requires
            text@.len() * 8 * (if scale < 1 {
                1
            } else {
                scale as int
            }) <= i32::MAX,
        ensures
            r == text@.len() * 8 * (if scale < 1 {
                1
            } else {
                scale as int
            }),
    {
        let count = text.unicode_len();
        let s: i32 = if scale < 1 {
            1
        } else {
            scale
        };
        proof {
            assert(count * 8 <= count * 8 * s) by (nonlinear_arith)
                requires
                    s >= 1,
                    count >= 0,
            ;
        }
        count as i32 * 8 * s
    }

    /// Present monochrome buffer as 0x00RRGGBB for minifb (nearest-neighbor scale).
    pub fn present_scaled(
        &self,
        out: &mut [u32],
        window_w: usize,
        window_h: usize,
        on_color: u32,
        off_color: u32,
    )
        requires
            self.wf(),
            window_w == 0 || window_h == 0 || window_w * window_h <= usize::MAX,
            window_w > 0 && window_h > 0 && old(out)@.len() >= window_w * window_h ==> (window_h
                - 1) * HEIGHT <= usize::MAX && (window_w - 1) * WIDTH <= usize::MAX,
        ensures
            final(out)@.len() == old(out)@.len(),
            window_w == 0 || window_h == 0 || old(out)@.len() < window_w * window_h ==> final(out)@
                == old(out)@,
            window_w > 0 && window_h > 0 && old(out)@.len() >= window_w * window_h ==> {
                &&& forall|n: int|
                    0 <= n < window_w * window_h ==> #[trigger] final(out)@[n] == if self.lit(
                        window_source(n, window_w as int, window_h as int).0,
                        window_source(n, window_w as int, window_h as int).1,
                    ) {
                        on_color
                    } else {
                        off_color
                    }
                &&& forall|n: int|
                    window_w * window_h <= n < old(out)@.len() ==> #[trigger] final(out)@[n]
                        == old(out)@[n]
            },
    {
        if window_w == 0 || window_h == 0 || out.len() < window_w * window_h {
            return;
        }
        let ghost ww = window_w as int;
        let ghost wh = window_h as int;
        let mut wy: usize = 0;
        while wy < window_h
            invariant
                self.wf(),
                ww == window_w,
                wh == window_h,
                0 < ww,
                0 < wh,
                ww * wh <= out@.len(),
                ww * wh <= usize::MAX,
                (wh - 1) * HEIGHT <= usize::MAX,
                (ww - 1) * WIDTH <= usize::MAX,
                wy * ww <= ww * wh,
                out@.len() == old(out)@.len(),
                wy <= wh,
                forall|n: int|
                    0 <= n < wy * ww ==> #[trigger] out@[n] == if self.lit(
                        window_source(n, ww, wh).0,
                        window_source(n, ww, wh).1,
                    ) {
                        on_color
                    } else {
                        off_color
                    },
                forall|n: int| wy * ww <= n < out@.len() ==> #[trigger] out@[n] == old(out)@[n],
            decreases wh - wy,
        {
            proof {
                lemma_window_pixel(wy as int, 0, ww, wh);
            }
            let sy = wy * HEIGHT / window_h;
            let mut wx: usize = 0;
            while wx < window_w
                invariant
                    self.wf(),
                    ww == window_w,
                    wh == window_h,
                    0 < ww,
                    0 < wh,
                    ww * wh <= out@.len(),
                    ww * wh <= usize::MAX,
                    (ww - 1) * WIDTH <= usize::MAX,
                    wy * ww + wx <= ww * wh,
                    out@.len() == old(out)@.len(),
                    wy < wh,
                    wx <= ww,
                    sy == wy * HEIGHT / wh,
                    sy < HEIGHT,
                    forall|n: int|
                        0 <= n < wy * ww + wx ==> #[trigger] out@[n] == if self.lit(
                            window_source(n, ww, wh).0,
                            window_source(n, ww, wh).1,
                        ) {
                            on_color
                        } else {
                            off_color
                        },
                    forall|n: int|
                        wy * ww + wx <= n < out@.len() ==> #[trigger] out@[n] == old(out)@[n],
                decreases ww - wx,
            {
                proof {
                    lemma_window_pixel(wy as int, wx as int, ww, wh);
                }
                let sx = wx * WIDTH / window_w;
                let on = self.pixels[sy * WIDTH + sx];
                out[wy * window_w + wx] = if on {
                    on_color
                } else {
                    off_color
                };
                wx = wx + 1;
            }
            proof {
                lemma_window_pixel(wy as int, 0, ww, wh);
            }
            wy = wy + 1;
        }
        assert(wh * ww == ww * wh) by (nonlinear_arith);
    }

    /// Present as RGBA8 bytes for HTML Canvas `ImageData` (nearest-neighbor scale).
    ///
    /// `on_rgba` / `off_rgba` are `[r, g, b, a]`.
    pub fn present_rgba(
        &self,
        out: &mut [u8],
        window_w: usize,
        window_h: usize,
        on_rgba: [u8; 4],
        off_rgba: [u8; 4],
    )
        requires
            self.wf(),
            window_w == 0 || window_h == 0 || window_w * window_h * 4 <= usize::MAX,
            window_w > 0 && window_h > 0 && old(out)@.len() >= window_w * window_h * 4 ==> (window_h
                - 1) * HEIGHT <= usize::MAX && (window_w - 1) * WIDTH <= usize::MAX,
        ensures
            final(out)@.len() == old(out)@.len(),
            window_w == 0 || window_h == 0 || old(out)@.len() < window_w * window_h * 4
                ==> final(out)@ == old(out)@,
            window_w > 0 && window_h > 0 && old(out)@.len() >= window_w * window_h * 4 ==> {
                &&& forall|n: int|
                    0 <= n < window_w * window_h * 4 ==> #[trigger] final(out)@[n] == if self.lit(
                        window_source(n / 4, window_w as int, window_h as int).0,
                        window_source(n / 4, window_w as int, window_h as int).1,
                    ) {
                        on_rgba@[n % 4]
                    } else {
                        off_rgba@[n % 4]
                    }
                &&& forall|n: int|
                    window_w * window_h * 4 <= n < old(out)@.len() ==> #[trigger] final(out)@[n]
                        == old(out)@[n]
            },
    {
        if window_w == 0 || window_h == 0 || out.len() < window_w * window_h * 4 {
            return;
        }
        let ghost ww = window_w as int;
        let ghost wh = window_h as int;
        let mut wy: usize = 0;
        while wy < window_h
            invariant
                self.wf(),
                ww == window_w,
                wh == window_h,
                0 < ww,
                0 < wh,
                ww * wh * 4 <= out@.len(),
                ww * wh * 4 <= usize::MAX,
                (wh - 1) * HEIGHT <= usize::MAX,
                (ww - 1) * WIDTH <= usize::MAX,
                wy * ww <= ww * wh,
                out@.len() == old(out)@.len(),
                wy <= wh,
                forall|n: int|
                    0 <= n < (wy * ww) * 4 ==> #[trigger] out@[n] == if self.lit(
                        window_source(n / 4, ww, wh).0,
                        window_source(n / 4, ww, wh).1,
                    ) {
                        on_rgba@[n % 4]
                    } else {
                        off_rgba@[n % 4]
                    },
                forall|n: int|
                    (wy * ww) * 4 <= n < out@.len() ==> #[trigger] out@[n] == old(out)@[n],
            decreases wh - wy,
        {
            proof {
                lemma_window_pixel(wy as int, 0, ww, wh);
            }
            let sy = wy * HEIGHT / window_h;
            let mut wx: usize = 0;
            while wx < window_w
                invariant
                    self.wf(),
                    ww == window_w,
                    wh == window_h,
                    0 < ww,
                    0 < wh,
                    ww * wh * 4 <= out@.len(),
                    ww * wh * 4 <= usize::MAX,
                    (ww - 1) * WIDTH <= usize::MAX,
                    wy * ww + wx <= ww * wh,
                    out@.len() == old(out)@.len(),
                    wy < wh,
                    wx <= ww,
                    sy == wy * HEIGHT / wh,
                    sy < HEIGHT,
                    forall|n: int|
                        0 <= n < (wy * ww + wx) * 4 ==> #[trigger] out@[n] == if self.lit(
                            window_source(n / 4, ww, wh).0,
                            window_source(n / 4, ww, wh).1,
                        ) {
                            on_rgba@[n % 4]
                        } else {
                            off_rgba@[n % 4]
                        },
                    forall|n: int|
                        (wy * ww + wx) * 4 <= n < out@.len() ==> #[trigger] out@[n] == old(
                            out,
                        )@[n],
                decreases ww - wx,
            {
                proof {
                    lemma_window_pixel(wy as int, wx as int, ww, wh);
                }
                let sx = wx * WIDTH / window_w;
                let on = self.pixels[sy * WIDTH + sx];
                let c = if on {
                    on_rgba
                } else {
                    off_rgba
                };
                let i = (wy * window_w + wx) * 4;
                let ghost k = wy * ww + wx;
                out[i] = c[0];
                out[i + 1] = c[1];
                out[i + 2] = c[2];
                out[i + 3] = c[3];
                proof {
                    assert forall|n: int| 0 <= n < (k + 1) * 4 implies #[trigger] out@[n] == if self.lit(
                        window_source(n / 4, ww, wh).0,
                        window_source(n / 4, ww, wh).1,
                    ) {
                        on_rgba@[n % 4]
                    } else {
                        off_rgba@[n % 4]
                    } by {
                        if n >= k * 4 {
                            assert(n / 4 == k);
                            assert(n % 4 == n - k * 4);
                        }
                    }
                }
                wx = wx + 1;
            }
            proof {
                lemma_window_pixel(wy as int, 0, ww, wh);
            }
            wy = wy + 1;
        }
        assert(wh * ww == ww * wh) by (nonlinear_arith);
    }
    /// Draws an 8×8 bitmap glyph (one byte per row, most significant bit on
    /// the left) with its top-left corner at `(x, y)`, each set bit as a
    /// `scale` × `scale` block (a scale below 1 draws at 1). Unset bits leave
    /// the frame as it was.
    pub fn draw_glyph(&mut self, glyph: [u8; 8], x: i32, y: i32, scale: i32)
        requires
            old(self).wf(),
            x + 8 * (if scale < 1 {
                1
            } else {
                scale as int
            }) <= i32::MAX,
            y + 8 * (if scale < 1 {
                1
            } else {
                scale as int
            }) <= i32::MAX,
            8 * (if scale < 1 {
                1
            } else {
                scale as int
            }) <= i32::MAX,
        ensures
            final(self).wf(),
            forall|a: int, b: int|
                on_canvas(a, b) ==> #[trigger] final(self).lit(a, b) == (old(self).lit(a, b)
                    || glyph_covers_before(
                    glyph@,
                    x as int,
                    y as int,
                    if scale < 1 {
                        1
                    } else {
                        scale as int
                    },
                    8,
                    0,
                    a,
                    b,
                )),
    {
        let scale: i32 = if scale < 1 {
            1
        } else {
            scale
        };
        let ghost g = glyph@;
        let mut row: i32 = 0;
        while row < 8
            invariant
                self.wf(),
                g == glyph@,
                0 <= row <= 8,
                1 <= scale,
                8 * scale <= i32::MAX,
                x + 8 * scale <= i32::MAX,
                y + 8 * scale <= i32::MAX,
                forall|a: int, b: int|
                    on_canvas(a, b) ==> #[trigger] self.lit(a, b) == (old(self).lit(a, b)
                        || glyph_covers_before(g, x as int, y as int, scale as int, row as int, 0, a, b)),
            decreases 8 - row,
        {
            let bits = glyph[row as usize];
            let mut col: i32 = 0;
            proof {
                assert(0 <= row * scale <= 7 * scale) by (nonlinear_arith)
                    requires
                        0 <= row < 8,
                        1 <= scale,
                ;
            }
            while col < 8
                invariant
                    self.wf(),
                    g == glyph@,
                    0 <= row < 8,
                    0 <= col <= 8,
                    1 <= scale,
                    bits == g[row as int],
                    8 * scale <= i32::MAX,
                    x + 8 * scale <= i32::MAX,
                    y + 8 * scale <= i32::MAX,
                    0 <= row * scale <= 7 * scale,
                    forall|a: int, b: int|
                        on_canvas(a, b) ==> #[trigger] self.lit(a, b) == (old(self).lit(a, b)
                            || glyph_covers_before(
                            g,
                            x as int,
                            y as int,
                            scale as int,
                            row as int,
                            col as int,
                            a,
                            b,
                        )),
                decreases 8 - col,
            {
                proof {
                    assert(0 <= col * scale <= 7 * scale) by (nonlinear_arith)
                        requires
                            0 <= col < 8,
                            1 <= scale,
                    ;
                }
                let ghost before = *self;
                let set = bits & (0x80u8 >> (col as u8)) != 0;
                if set {
                    if scale == 1 {
                        self.pixel(x + col, y + row);
                    } else {
                        self.fill_rect(x + col * scale, y + row * scale, scale, scale, true);
                    }
                }
                proof {
                    assert forall|a: int, b: int| on_canvas(a, b) implies #[trigger] self.lit(a, b)
                        == (old(self).lit(a, b) || glyph_covers_before(
                        g,
                        x as int,
                        y as int,
                        scale as int,
                        row as int,
                        col + 1,
                        a,
                        b,
                    )) by {
                        let here = glyph_cell_covers(
                            g,
                            x as int,
                            y as int,
                            scale as int,
                            row as int,
                            col as int,
                            a,
                            b,
                        );
                        assert(set == glyph_bit(g[row as int], col as int));
                        if set && scale == 1 {
                            assert(col * scale == col);
                            assert(row * scale == row);
                            let p = (x + col, y + row);
                            assert(seq![(p.0 as int, p.1 as int)][0] == (p.0 as int, p.1 as int));
                            assert(seq![(p.0 as int, p.1 as int)].contains((a, b)) == (a == p.0 && b
                                == p.1));
                        }
                        assert(self.lit(a, b) == (before.lit(a, b) || here));
                        if glyph_covers_before(
                            g,
                            x as int,
                            y as int,
                            scale as int,
                            row as int,
                            col + 1,
                            a,
                            b,
                        ) {
                            let (r, c) = choose|r: int, c: int|
                                (r < row || (r == row && c < col + 1)) && #[trigger] glyph_cell_covers(
                                    g,
                                    x as int,
                                    y as int,
                                    scale as int,
                                    r,
                                    c,
                                    a,
                                    b,
                                );
                            if !(r == row && c == col) {
                                assert(glyph_covers_before(
                                    g,
                                    x as int,
                                    y as int,
                                    scale as int,
                                    row as int,
                                    col as int,
                                    a,
                                    b,
                                ));
                            }
                        }
                        if here {
                            assert(glyph_cell_covers(
                                g,
                                x as int,
                                y as int,
                                scale as int,
                                row as int,
                                col as int,
                                a,
                                b,
                            ));
                        }
                        if glyph_covers_before(
                            g,
                            x as int,
                            y as int,
                            scale as int,
                            row as int,
                            col as int,
                            a,
                            b,
                        ) {
                            let (r, c) = choose|r: int, c: int|
                                (r < row || (r == row && c < col)) && #[trigger] glyph_cell_covers(
                                    g,
                                    x as int,
                                    y as int,
                                    scale as int,
                                    r,
                                    c,
                                    a,
                                    b,
                                );
                            assert(glyph_cell_covers(g, x as int, y as int, scale as int, r, c, a, b));
                        }
                    }
                }
                col = col + 1;
            }
            proof {
                assert forall|a: int, b: int|
                    glyph_covers_before(g, x as int, y as int, scale as int, row as int, 8, a, b)
                        == glyph_covers_before(
                        g,
                        x as int,
                        y as int,
                        scale as int,
                        row + 1,
                        0,
                        a,
                        b,
                    ) by {
                    if glyph_covers_before(g, x as int, y as int, scale as int, row + 1, 0, a, b) {
                        let (r, c) = choose|r: int, c: int|
                            (r < row + 1 || (r == row + 1 && c < 0)) && #[trigger] glyph_cell_covers(
                                g,
                                x as int,
                                y as int,
                                scale as int,
                                r,
                                c,
                                a,
                                b,
                            );
                        assert(glyph_cell_covers(g, x as int, y as int, scale as int, r, c, a, b));
                    }
                    if glyph_covers_before(g, x as int, y as int, scale as int, row as int, 8, a, b) {
                        let (r, c) = choose|r: int, c: int|
                            (r < row || (r == row && c < 8)) && #[trigger] glyph_cell_covers(
                                g,
                                x as int,
                                y as int,
                                scale as int,
                                r,
                                c,
                                a,
                                b,
                            );
                        assert(glyph_cell_covers(g, x as int, y as int, scale as int, r, c, a, b));
                    }
                }
            }
            row = row + 1;
        }
    }
}

} // verus!
