use vstd::prelude::*;
use vstd::arithmetic::div_mod::{lemma_fundamental_div_mod, lemma_fundamental_div_mod_converse};
use crate::pixel_font::FontPixel;

verus! {

/// One RGBA pixel, 8 bits per channel.
pub type Pixel = [u8; 4];

/// Opaque red: the sentinel colour of a blit that does not fit.
pub open spec fn red() -> Pixel {
    [255u8, 0u8, 0u8, 255u8]
}

pub fn red_pixel() -> (p: Pixel)
    ensures
        p == red(),
{
    [255u8, 0u8, 0u8, 255u8]
}

/// Whether a `tw` x `th` rectangle placed at `(x, y)` lies inside a `bw` x `bh` one.
pub open spec fn fits(x: int, y: int, tw: int, th: int, bw: int, bh: int) -> bool {
    x + tw <= bw && y + th <= bh
}

/// Whether cell `i` of a row-major buffer of width `bw` lies under the rectangle.
pub open spec fn covers(i: int, bw: int, x: int, y: int, tw: int, th: int) -> bool {
    y <= i / bw < y + th && x <= i % bw < x + tw
}

/// The buffer that results from drawing `top` onto `base` with its top-left corner at `(x, y)`.
pub open spec fn blit(
    base: Seq<Pixel>,
    bw: nat,
    bh: nat,
    x: int,
    y: int,
    top: Seq<Pixel>,
    tw: nat,
    th: nat,
) -> Seq<Pixel> {
    if !fits(x, y, tw as int, th as int, bw as int, bh as int) {
        Seq::new(bw * bh, |i: int| red())
    } else {
        Seq::new(
            bw * bh,
            |i: int|
                if covers(i, bw as int, x, y, tw as int, th as int) {
                    top[(i / bw as int - y) * tw + (i % bw as int - x)]
                } else {
                    base[i]
                },
        )
    }
}

proof fn lemma_cell_bound(r: int, c: int, w: int, h: int)
    requires
        0 <= r < h,
        0 <= c < w,
    ensures
        0 <= r * w + c < w * h,
{
    assert(r * w + c < w * h) by (nonlinear_arith)
        requires
            0 <= r < h,
            0 <= c < w,
    ;
    assert(0 <= r * w) by (nonlinear_arith)
        requires
            0 <= r,
            0 <= c < w,
    ;
}

proof fn lemma_cell_coords(r: int, c: int, w: int)
    requires
        0 <= r,
        0 <= c < w,
    ensures
        (r * w + c) / w == r,
        (r * w + c) % w == c,
{
    lemma_fundamental_div_mod_converse(r * w + c, w, r, c);
}

proof fn lemma_cell_split(i: int, w: int)
    requires
        0 <= i,
        0 < w,
    ensures
        i == (i / w) * w + i % w,
        0 <= i % w < w,
        0 <= i / w,
{
    lemma_fundamental_div_mod(i, w);
    assert(0 <= i / w) by (nonlinear_arith)
        requires
            0 <= i,
            0 < w,
    ;
    assert(w * (i / w) == (i / w) * w) by (nonlinear_arith);
}

/// Draws `top` onto `base` at `(x_offset, y_offset)`. A rectangle that does not fit
/// yields a buffer of `base`'s size filled with opaque red, and nothing is copied.
pub fn draw_on_top_at(
    x_offset: usize,
    y_offset: usize,
    base: Vec<Pixel>,
    base_width: usize,
    base_height: usize,
    top: &Vec<Pixel>,
    top_width: usize,
    top_height: usize,
) -> (r: Vec<Pixel>)
    requires
        base@.len() == base_width * base_height,
        top@.len() == top_width * top_height,
    ensures
        r@ == blit(
            base@,
            base_width as nat,
            base_height as nat,
            x_offset as int,
            y_offset as int,
            top@,
            top_width as nat,
            top_height as nat,
        ),
        r@.len() == base_width * base_height,
{
    let ghost bw = base_width as int;
    let ghost tw = top_width as int;
    if top_width > base_width || x_offset > base_width - top_width || top_height > base_height
        || y_offset > base_height - top_height {
        let r = filled(red_pixel(), base.len());
        assert(r@ =~= blit(base@, bw as nat, base_height as nat, x_offset as int, y_offset as int, top@, tw as nat, top_height as nat));
        return r;
    }
    let mut buf = base;
    let total = buf.len();
    let top_total = top.len();
    let mut row: usize = 0;
    while row < top_height
        invariant
            0 <= row <= top_height,
            x_offset + top_width <= base_width,
            y_offset + top_height <= base_height,
            buf@.len() == base_width * base_height,
            bw == base_width,
            tw == top_width,
            base_width * base_height <= usize::MAX,
            top_width * top_height <= usize::MAX,
            top@.len() == top_width * top_height,
            forall|i: int|
                0 <= i < buf@.len() ==> #[trigger] buf@[i] == (if covers(i, bw, x_offset as int, y_offset as int, tw, row as int) {
                    top[(i / bw - y_offset) * tw + (i % bw - x_offset)]
                } else {
                    base@[i]
                }),
        decreases top_height - row,
    {
        let mut col: usize = 0;
        while col < top_width
            invariant
                0 <= row < top_height,
                0 <= col <= top_width,
                x_offset + top_width <= base_width,
                y_offset + top_height <= base_height,
                buf@.len() == base_width * base_height,
                bw == base_width,
                tw == top_width,
                base_width * base_height <= usize::MAX,
                top_width * top_height <= usize::MAX,
            top_width * top_height <= usize::MAX,
                top@.len() == top_width * top_height,
                forall|i: int|
                    0 <= i < buf@.len() ==> #[trigger] buf@[i] == (if covers(i, bw, x_offset as int, y_offset as int, tw, row as int)
                        || (i / bw == y_offset + row && x_offset <= i % bw < x_offset + col) {
                        top[(i / bw - y_offset) * tw + (i % bw - x_offset)]
                    } else {
                        base@[i]
                    }),
            decreases top_width - col,
        {
            proof {
                lemma_cell_bound((y_offset + row) as int, (x_offset + col) as int, bw, base_height as int);
                lemma_cell_bound(row as int, col as int, tw, top_height as int);
            }
            let k = (y_offset + row) * base_width + (x_offset + col);
            let t = row * top_width + col;
            let ghost old_buf = buf@;
            buf.set(k, top[t]);
            proof {
                lemma_cell_coords((y_offset + row) as int, (x_offset + col) as int, bw);
                assert forall|i: int| 0 <= i < buf@.len() implies #[trigger] buf@[i] == (if covers(i, bw, x_offset as int, y_offset as int, tw, row as int)
                        || (i / bw == y_offset + row && x_offset <= i % bw < x_offset + col + 1) {
                        top[(i / bw - y_offset) * tw + (i % bw - x_offset)]
                    } else {
                        base@[i]
                    }) by {
                    lemma_cell_split(i, bw);
                    if i != k {
                        assert(old_buf[i] == buf@[i]);
                    }
                }
            }
            col = col + 1;
        }
        assert forall|i: int| 0 <= i < buf@.len() implies #[trigger] buf@[i] == (if covers(i, bw, x_offset as int, y_offset as int, tw, row + 1) {
                top[(i / bw - y_offset) * tw + (i % bw - x_offset)]
            } else {
                base@[i]
            }) by {
            if bw > 0 {
                lemma_cell_split(i, bw);
            }
        }
        row = row + 1;
    }
    assert(buf@ =~= blit(base@, bw as nat, base_height as nat, x_offset as int, y_offset as int, top@, tw as nat, top_height as nat));
    buf
}

/// A buffer of `n` copies of `p`.
pub fn filled(p: Pixel, n: usize) -> (r: Vec<Pixel>)
    ensures
        r@ == Seq::new(n as nat, |i: int| p),
{
    let mut r: Vec<Pixel> = Vec::with_capacity(n);
    let mut i: usize = 0;
    while i < n
        invariant
            i <= n,
            r@ =~= Seq::new(i as nat, |j: int| p),
        decreases n - i,
    {
        r.push(p);
        i = i + 1;
    }
    r
}


/// A buffer of the same pixels as `v`.
pub fn copy_pixels(v: &Vec<Pixel>) -> (r: Vec<Pixel>)
    ensures
        r@ == v@,
{
    let mut r: Vec<Pixel> = Vec::with_capacity(v.len());
    let mut i: usize = 0;
    while i < v.len()
        invariant
            i <= v@.len(),
            r@ =~= v@.take(i as int),
        decreases v@.len() - i,
    {
        r.push(v[i]);
        i = i + 1;
    }
    assert(v@.take(i as int) =~= v@);
    r
}

/// A colour in RGB, 8 bits per channel.
#[derive(Clone, Copy, PartialEq, Eq, Structural, Debug)]
pub struct Color {
    pub r: u8,
    pub g: u8,
    pub b: u8,
}

impl Color {
    pub fn black() -> (c: Color)
        ensures
            c == (Color { r: 0, g: 0, b: 0 }),
    {
        Color { r: 0u8, g: 0u8, b: 0u8 }
    }

    pub fn white() -> (c: Color)
        ensures
            c == (Color { r: 255, g: 255, b: 255 }),
    {
        Color { r: 255u8, g: 255u8, b: 255u8 }
    }

    /// The colour as an opaque pixel.
    pub open spec fn opaque(self) -> Pixel {
        [self.r, self.g, self.b, 255u8]
    }
}

/// A rectangle's extent in pixels: the size a widget renders at without clipping.
#[derive(Clone, Copy, PartialEq, Eq, Structural, Debug)]
pub struct WidgetBounds {
    pub width: usize,
    pub height: usize,
}

/// One channel of `colorize`: `b + (f - b) * a` in signed arithmetic, truncated to 8 bits.
pub open spec fn mix_channel(f: u8, b: u8, a: u8) -> u8 {
    (((f as int - b as int) * a as int + b as int) % 256) as u8
}

/// The opaque pixel that a glyph cell of coverage `a` becomes between `fg` and `bg`.
pub open spec fn colorize(fg: Color, bg: Color, a: u8) -> Pixel {
    [mix_channel(fg.r, bg.r, a), mix_channel(fg.g, bg.g, a), mix_channel(fg.b, bg.b, a), 255u8]
}

/// A glyph bitmap turned into pixels.
pub open spec fn colorize_all(fg: Color, bg: Color, cells: Seq<FontPixel>) -> Seq<Pixel> {
    Seq::new(cells.len(), |i: int| colorize(fg, bg, cells[i].alpha))
}

fn mix(f: u8, b: u8, a: u8) -> (r: u8)
    ensures
        r == mix_channel(f, b, a),
{
    let d: i32 = f as i32 - b as i32;
    assert(-65025 <= d * (a as i32) <= 65025) by (nonlinear_arith)
        requires
            -255 <= d <= 255,
            0 <= a <= 255,
    ;
    let v: i32 = d * (a as i32) + b as i32;
    let shifted: u32 = (v + 65280) as u32;
    let m: u32 = shifted % 256;
    proof {
        vstd::arithmetic::div_mod::lemma_mod_add_multiples_vanish(v as int, 256);
        assert((v as int + 65280) % 256 == (v as int) % 256) by {
            vstd::arithmetic::div_mod::lemma_mod_multiples_vanish(255, v as int, 256);
        }
    }
    m as u8
}

/// Turns coverage cells into pixels interpolated between `foreground` and `background`.
pub fn from_font_to_pixbuf(foreground: Color, background: Color, buffer: &Vec<FontPixel>) -> (r: Vec<Pixel>)
    ensures
        r@ == colorize_all(foreground, background, buffer@),
{
    let mut r: Vec<Pixel> = Vec::with_capacity(buffer.len());
    let mut i: usize = 0;
    while i < buffer.len()
        invariant
            i <= buffer@.len(),
            r@ =~= colorize_all(foreground, background, buffer@.take(i as int)),
        decreases buffer@.len() - i,
    {
        let a = buffer[i].alpha;
        let p: Pixel = [
            mix(foreground.r, background.r, a),
            mix(foreground.g, background.g, a),
            mix(foreground.b, background.b, a),
            255u8,
        ];
        r.push(p);
        i = i + 1;
        assert(colorize_all(foreground, background, buffer@.take(i as int)) =~= colorize_all(
            foreground,
            background,
            buffer@.take(i - 1),
        ).push(p));
    }
    assert(buffer@.take(i as int) =~= buffer@);
    r
}

/// A coverage of zero paints the background, opaque.
pub proof fn lemma_colorize_clear(fg: Color, bg: Color)
    ensures
        colorize(fg, bg, 0) == bg.opaque(),
{
    assert(colorize(fg, bg, 0) =~= bg.opaque());
}

/// Full coverage paints the foreground, opaque, wherever each channel of the two colours
/// differs by a multiple of 128; with 8-bit truncation `b + (f - b) * 255` is `2b - f`
/// modulo 256, which is `f` exactly then.
pub proof fn lemma_colorize_full(fg: Color, bg: Color)
    requires
        (fg.r as int - bg.r as int) % 128 == 0,
        (fg.g as int - bg.g as int) % 128 == 0,
        (fg.b as int - bg.b as int) % 128 == 0,
    ensures
        colorize(fg, bg, 255) == fg.opaque(),
{
    lemma_mix_full(fg.r, bg.r);
    lemma_mix_full(fg.g, bg.g);
    lemma_mix_full(fg.b, bg.b);
    assert(colorize(fg, bg, 255) =~= fg.opaque());
}

proof fn lemma_mix_full(f: u8, b: u8)
    requires
        (f as int - b as int) % 128 == 0,
    ensures
        mix_channel(f, b, 255) == f,
{
    let d = f as int - b as int;
    assert(d == -128 || d == 0 || d == 128) by {
        assert(-255 <= d <= 255);
    }
    assert((d * 255 + b as int) % 256 == f as int);
}

/// Packs an RGBA pixel into one ARGB word.
pub fn compute_col_u32_alpha(components: &[u8; 4]) -> (r: u32)
    ensures
        r == components[3] as u32 * 0x1000000 + components[0] as u32 * 0x10000 + components[1] as u32
            * 0x100 + components[2] as u32,
{
    let a = components[3] as u32;
    let red = components[0] as u32;
    let g = components[1] as u32;
    let b = components[2] as u32;
    assert((a << 24u32) | (red << 16u32) | (g << 8u32) | b == a * 0x1000000 + red * 0x10000 + g * 0x100 + b)
        by (bit_vector)
        requires
            a < 256,
            red < 256,
            g < 256,
            b < 256,
    ;
    (a << 24u32) | (red << 16u32) | (g << 8u32) | b
}

/// Packs an RGB triple into one ARGB word with full alpha.
pub fn compute_col_u32_no_alpha(components: &[u8; 3]) -> (r: u32)
    ensures
        r == 255 * 0x1000000 + components[0] as u32 * 0x10000 + components[1] as u32 * 0x100
            + components[2] as u32,
{
    let red = components[0] as u32;
    let g = components[1] as u32;
    let b = components[2] as u32;
    assert((255u32 << 24u32) | (red << 16u32) | (g << 8u32) | b == 255u32 * 0x1000000 + red * 0x10000 + g * 0x100 + b)
        by (bit_vector)
        requires
            red < 256,
            g < 256,
            b < 256,
    ;
    (255u32 << 24u32) | (red << 16u32) | (g << 8u32) | b
}

/// Blitting a full-size buffer at the origin yields that buffer.
pub proof fn lemma_blit_identity(base: Seq<Pixel>, top: Seq<Pixel>, w: nat, h: nat)
    requires
        top.len() == w * h,
    ensures
        blit(base, w, h, 0, 0, top, w, h) == top,
{
    let wi = w as int;
    assert forall|i: int| 0 <= i < w * h implies blit(base, w, h, 0, 0, top, w, h)[i] == top[i] by {
        assert(wi > 0) by (nonlinear_arith)
            requires
                0 <= i < w * h,
                wi == w,
        ;
        lemma_cell_split(i, wi);
        let q = i / wi;
        assert(q < h) by (nonlinear_arith)
            requires
                i == q * wi + i % wi,
                0 <= i % wi,
                i < wi * h,
                wi > 0,
        ;
        assert((q - 0) * wi + (i % wi - 0) == i);
    }
    assert(blit(base, w, h, 0, 0, top, w, h) =~= top);
}

/// A blit that does not fit yields a buffer of the destination's size, all opaque red.
pub proof fn lemma_blit_overflow(
    base: Seq<Pixel>,
    bw: nat,
    bh: nat,
    x: int,
    y: int,
    top: Seq<Pixel>,
    tw: nat,
    th: nat,
)
    requires
        x + tw > bw || y + th > bh,
    ensures
        blit(base, bw, bh, x, y, top, tw, th).len() == bw * bh,
        forall|i: int| 0 <= i < bw * bh ==> blit(base, bw, bh, x, y, top, tw, th)[i] == red(),
{
}


/// A buffer laid out in a row: its pixels, its extent, and the gap that follows it.
pub struct Tile {
    pub pixels: Seq<Pixel>,
    pub width: nat,
    pub height: nat,
    pub gap: nat,
}

/// `n`, saturated at the largest `usize`.
pub open spec fn sat(n: int) -> int {
    if n > usize::MAX {
        usize::MAX as int
    } else {
        n
    }
}

/// Where the tile after `t` starts when `t` starts at `x`.
pub open spec fn next_x(x: int, t: Tile) -> int {
    sat(x + t.width + t.gap)
}

/// Where a row of `tiles` that starts at `x0` ends.
pub open spec fn row_end(tiles: Seq<Tile>, x0: int) -> int
    decreases tiles.len(),
{
    if tiles.len() == 0 {
        x0
    } else {
        next_x(row_end(tiles.drop_last(), x0), tiles.last())
    }
}

/// `base` with `tiles` drawn left to right from `(x0, y)`, each one after the gap of the last.
pub open spec fn paint_row(base: Seq<Pixel>, bw: nat, bh: nat, tiles: Seq<Tile>, x0: int, y: int) -> Seq<Pixel>
    decreases tiles.len(),
{
    if tiles.len() == 0 {
        base
    } else {
        blit(
            paint_row(base, bw, bh, tiles.drop_last(), x0, y),
            bw,
            bh,
            row_end(tiles.drop_last(), x0),
            y,
            tiles.last().pixels,
            tiles.last().width,
            tiles.last().height,
        )
    }
}

/// The tallest tile of a row, or 0.
pub open spec fn row_height(tiles: Seq<Tile>) -> nat
    decreases tiles.len(),
{
    if tiles.len() == 0 {
        0
    } else if tiles.last().height > row_height(tiles.drop_last()) {
        tiles.last().height
    } else {
        row_height(tiles.drop_last())
    }
}

/// `x + w + gap`, saturated at the largest `usize`.
pub fn advance(x: usize, w: usize, gap: usize) -> (r: usize)
    ensures
        r == sat(x + w + gap),
{
    let a = x.saturating_add(w);
    a.saturating_add(gap)
}

/// Whether cell `(r, c)` of a `w` x `h` frame is on a tick of the band that starts
/// a quarter of the way down: every third row of sixteen, inset four columns each side.
pub open spec fn tick_at(r: int, c: int, w: int, h: int) -> bool {
    h / 4 <= r < h / 4 + 16 && (r - h / 4) % 3 == 0 && 4 < c && c + 4 < w
}

/// Cell `(r, c)` of a `w` x `h` frame: `border` on the outer ring (and on the ticks, where
/// asked), `fill` elsewhere.
pub open spec fn frame_pixel(r: int, c: int, w: int, h: int, fill: Pixel, border: Pixel, ticks: bool) -> Pixel {
    if r == 0 || r == h - 1 || c == 0 || c == w - 1 || (ticks && tick_at(r, c, w, h)) {
        border
    } else {
        fill
    }
}

pub open spec fn frame(w: nat, h: nat, fill: Pixel, border: Pixel, ticks: bool) -> Seq<Pixel> {
    Seq::new(w * h, |i: int| frame_pixel(i / w as int, i % w as int, w as int, h as int, fill, border, ticks))
}

/// A `w` x `h` buffer with a one-pixel `border` round a `fill`, and optionally the ticks.
pub fn paint_frame(w: usize, h: usize, fill: Pixel, border: Pixel, ticks: bool) -> (r: Vec<Pixel>)
    requires
        w * h <= usize::MAX,
    ensures
        r@ == frame(w as nat, h as nat, fill, border, ticks),
{
    let ghost wi = w as int;
    let ghost hi = h as int;
    let mut r: Vec<Pixel> = Vec::new();
    let mut row: usize = 0;
    while row < h
        invariant
            row <= h,
            wi == w,
            hi == h,
            w * h <= usize::MAX,
            r@ =~= Seq::new((row * w) as nat, |i: int| frame_pixel(i / wi, i % wi, wi, hi, fill, border, ticks)),
        decreases h - row,
    {
        let mut col: usize = 0;
        while col < w
            invariant
                row < h,
                col <= w,
                wi == w,
                hi == h,
                w * h <= usize::MAX,
                r@ =~= Seq::new((row * w + col) as nat, |i: int| frame_pixel(i / wi, i % wi, wi, hi, fill, border, ticks)),
            decreases w - col,
        {
            proof {
                lemma_cell_bound(row as int, col as int, wi, hi);
                lemma_cell_coords(row as int, col as int, wi);
            }
            let on_ring = row == 0 || row + 1 == h || col == 0 || col + 1 == w;
            let tick = ticks && h / 4 <= row && row - h / 4 < 16 && (row - h / 4) % 3 == 0 && 4 < col && w > 4 && col < w - 4;
            let p = if on_ring || tick {
                border
            } else {
                fill
            };
            r.push(p);
            col = col + 1;
        }
        assert(row * w + w == (row + 1) * w) by (nonlinear_arith);
        row = row + 1;
    }
    assert(h * w == w * h) by (nonlinear_arith);
    r
}

/// `s` with its bottom row of a `w` x `h` buffer set to `p`.
pub open spec fn bottom_rule(s: Seq<Pixel>, w: nat, h: nat, p: Pixel) -> Seq<Pixel> {
    Seq::new(s.len(), |i: int| if h > 0 && (h - 1) * w <= i < h * w { p } else { s[i] })
}

/// Draws a one-pixel line of `p` along the bottom edge of a `w` x `h` buffer.
pub fn draw_bottom_rule(buf: Vec<Pixel>, w: usize, h: usize, p: Pixel) -> (r: Vec<Pixel>)
    requires
        buf@.len() == w * h,
    ensures
        r@ == bottom_rule(buf@, w as nat, h as nat, p),
{
    let mut buf = buf;
    if h == 0 {
        assert(buf@ =~= bottom_rule(buf@, w as nat, h as nat, p));
        return buf;
    }
    let ghost orig = buf@;
    let total = buf.len();
    assert((h - 1) * w + w == w * h) by (nonlinear_arith)
        requires
            h > 0,
    ;
    assert(h * w == w * h) by (nonlinear_arith);
    let start = (h - 1) * w;
    let mut i: usize = 0;
    while i < w
        invariant
            i <= w,
            h > 0,
            start == (h - 1) * w,
            start + w == h * w,
            start + w <= usize::MAX,
            buf@.len() == orig.len(),
            orig.len() == w * h,
            buf@ =~= Seq::new(orig.len(), |k: int| if start <= k < start + i { p } else { orig[k] }),
        decreases w - i,
    {
        buf.set(start + i, p);
        i = i + 1;
    }
    assert(buf@ =~= bottom_rule(orig, w as nat, h as nat, p));
    buf
}

/// A buffer placed at a given position.
pub struct Placed {
    pub x: int,
    pub y: int,
    pub tile: Tile,
}

/// `base` with each of `placed` drawn in order, later ones over earlier ones.
pub open spec fn paint_placed(base: Seq<Pixel>, bw: nat, bh: nat, placed: Seq<Placed>) -> Seq<Pixel>
    decreases placed.len(),
{
    if placed.len() == 0 {
        base
    } else {
        let p = placed.last();
        blit(paint_placed(base, bw, bh, placed.drop_last()), bw, bh, p.x, p.y, p.tile.pixels, p.tile.width, p.tile.height)
    }
}

} // verus!
