use vstd::prelude::*;
use vstd::string::StrSliceExecFns;
use crate::geometry::{
    Pixel, Color, WidgetBounds, Tile, colorize_all, paint_row, row_end, row_height, draw_on_top_at,
    filled, from_font_to_pixbuf, advance,
};
use crate::pixel_font::PixelFont;
use crate::widget::WidgetKind;

verus! {

pub open spec fn white_px() -> Pixel {
    [255u8, 255u8, 255u8, 255u8]
}

pub open spec fn clear_px() -> Pixel {
    [0u8, 0u8, 0u8, 0u8]
}

/// A `w` x `h` buffer, all white.
pub open spec fn white_page(w: nat, h: nat) -> Seq<Pixel> {
    Seq::new(w * h, |i: int| white_px())
}

/// How `c` is laid out: its glyph coloured between `fg` and `bg`, or, for a character the
/// font lacks, an 8 x 16 transparent blank followed by a gap of 1.
pub open spec fn glyph_tile(font: PixelFont, fg: Color, bg: Color, c: char) -> Tile {
    match font.glyph(c) {
        Some(g) => Tile {
            pixels: colorize_all(fg, bg, g.pixels@),
            width: g.width as nat,
            height: g.height as nat,
            gap: g.right_offset as nat,
        },
        None => Tile { pixels: Seq::new(128, |i: int| clear_px()), width: 8, height: 16, gap: 1 },
    }
}

pub open spec fn text_tiles(font: PixelFont, fg: Color, bg: Color, text: Seq<char>) -> Seq<Tile> {
    Seq::new(text.len(), |i: int| glyph_tile(font, fg, bg, text[i]))
}

/// Horizontal alignment of text.
#[derive(Clone, Copy, PartialEq, Eq, Structural, Debug)]
pub enum TextAlignment {
    Right,
    Left,
    Center,
}

/// A line of text in a bitmap font. It keeps no cache: each render lays it out anew.
pub struct TextWidget {
    pub font: Box<PixelFont>,
    pub wrap: bool,
    pub text: Vec<char>,
    pub foreground_col: Color,
    pub background_col: Color,
}

impl TextWidget {
    pub open spec fn wf(&self) -> bool {
        self.font.wf()
    }

    pub open spec fn tiles(&self) -> Seq<Tile> {
        text_tiles(*self.font, self.foreground_col, self.background_col, self.text@)
    }

    /// The text laid out from the top-left corner of a white `w` x `h` buffer.
    pub open spec fn picture(&self, w: nat, h: nat) -> Seq<Pixel> {
        paint_row(white_page(w, h), w, h, self.tiles(), 0, 0)
    }

    /// The width the text needs: the sum of its glyphs' widths and gaps.
    pub open spec fn min_width(&self) -> int {
        row_end(self.tiles(), 0)
    }

    /// The height the text needs: its tallest glyph.
    pub open spec fn min_height(&self) -> int {
        row_height(self.tiles()) as int
    }

    pub fn new(font: Box<PixelFont>, wrap: bool, text: &str, foreground_col: Color, background_col: Color) -> (r: TextWidget)
        ensures
            r.font == font,
            r.wrap == wrap,
            r.text@ == text@,
            r.foreground_col == foreground_col,
            r.background_col == background_col,
    {
        let n = text.unicode_len();
        let mut chars: Vec<char> = Vec::with_capacity(n);
        let mut i: usize = 0;
        while i < n
            invariant
                i <= n,
                n == text@.len(),
                chars@ =~= text@.take(i as int),
            decreases n - i,
        {
            chars.push(text.get_char(i));
            i = i + 1;
        }
        assert(text@.take(n as int) =~= text@);
        TextWidget { font, wrap, text: chars, foreground_col, background_col }
    }

    /// Lays the text out into a `width` x `height` buffer; always a fresh one.
    pub fn render(&mut self, width: usize, height: usize) -> (r: Option<Vec<Pixel>>)
        requires
            old(self).wf(),
            width * height <= usize::MAX,
        ensures
            *final(self) == *old(self),
            r matches Some(b) && b@ == old(self).picture(width as nat, height as nat),
    {
        Some(self.draw(width, height))
    }

    pub fn draw(&self, width: usize, height: usize) -> (r: Vec<Pixel>)
        requires
            self.wf(),
            width * height <= usize::MAX,
        ensures
            r@ == self.picture(width as nat, height as nat),
            r@.len() == width * height,
    {
        let ghost tiles = self.tiles();
        let ghost page = white_page(width as nat, height as nat);
        let mut buf = filled([255u8, 255u8, 255u8, 255u8], width * height);
        assert(buf@ =~= page);
        let mut xoff: usize = 0;
        let mut i: usize = 0;
        assert(tiles.take(0) =~= Seq::<Tile>::empty());
        while i < self.text.len()
            invariant
                self.wf(),
                i <= self.text@.len(),
                tiles == self.tiles(),
                tiles.len() == self.text@.len(),
                page == white_page(width as nat, height as nat),
                buf@.len() == width * height,
                buf@ == paint_row(page, width as nat, height as nat, tiles.take(i as int), 0, 0),
                xoff == row_end(tiles.take(i as int), 0),
            decreases self.text@.len() - i,
        {
            let c = self.text[i];
            proof {
                self.font.lemma_glyph_wf(c);
                assert(tiles.take(i + 1).drop_last() =~= tiles.take(i as int));
                assert(tiles.take(i + 1).last() == tiles[i as int]);
            }
            match self.font.get(c) {
                Some(g) => {
                    let px = from_font_to_pixbuf(self.foreground_col, self.background_col, &g.pixels);
                    buf = draw_on_top_at(xoff, 0, buf, width, height, &px, g.width, g.height);
                    xoff = advance(xoff, g.width, g.right_offset);
                },
                None => {
                    let blank = filled([0u8, 0u8, 0u8, 0u8], 128);
                    assert(blank@ =~= Seq::new(128, |k: int| clear_px()));
                    buf = draw_on_top_at(xoff, 0, buf, width, height, &blank, 8, 16);
                    xoff = advance(xoff, 8, 1);
                },
            }
            i = i + 1;
        }
        assert(tiles.take(i as int) =~= tiles);
        buf
    }

    /// The size the text renders at without clipping; the width saturates at the largest `usize`.
    pub fn get_min_bounds(&self) -> (r: WidgetBounds)
        ensures
            r.width == self.min_width(),
            r.height == self.min_height(),
    {
        let ghost tiles = self.tiles();
        let mut w: usize = 0;
        let mut h: usize = 0;
        let mut i: usize = 0;
        assert(tiles.take(0) =~= Seq::<Tile>::empty());
        while i < self.text.len()
            invariant
                i <= self.text@.len(),
                tiles == self.tiles(),
                tiles.len() == self.text@.len(),
                w == row_end(tiles.take(i as int), 0),
                h == row_height(tiles.take(i as int)),
            decreases self.text@.len() - i,
        {
            let c = self.text[i];
            proof {
                assert(tiles.take(i + 1).drop_last() =~= tiles.take(i as int));
                assert(tiles.take(i + 1).last() == tiles[i as int]);
            }
            match self.font.get(c) {
                Some(g) => {
                    w = advance(w, g.width, g.right_offset);
                    if g.height > h {
                        h = g.height;
                    }
                },
                None => {
                    w = advance(w, 8, 1);
                    if 16 > h {
                        h = 16;
                    }
                },
            }
            i = i + 1;
        }
        assert(tiles.take(i as int) =~= tiles);
        WidgetBounds { width: w, height: h }
    }

    /// A leaf: no children.
    pub fn get_children(&self) -> (r: Option<Vec<WidgetKind>>)
        ensures
            r is None,
    {
        None
    }

    /// The text rendered at the size it needs.
    pub fn get_cache(&mut self) -> (r: Vec<Pixel>)
        requires
            old(self).wf(),
            old(self).min_width() * old(self).min_height() <= usize::MAX,
        ensures
            *final(self) == *old(self),
            r@ == old(self).picture(old(self).min_width() as nat, old(self).min_height() as nat),
    {
        let b = self.get_min_bounds();
        self.draw(b.width, b.height)
    }
}

} // verus!
