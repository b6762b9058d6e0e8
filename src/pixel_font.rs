use vstd::prelude::*;

verus! {

/// An 8-bit coverage value of one glyph cell.
#[derive(Clone, Copy, PartialEq, Eq, Debug)]
pub struct FontPixel {
    pub alpha: u8,
}

/// One glyph: a `width` x `height` row-major bitmap and the gap that follows it.
#[derive(Clone, Debug)]
pub struct PixelFontChar {
    pub width: usize,
    pub height: usize,
    pub right_offset: usize,
    pub pixels: Vec<FontPixel>,
}

/// A bitmap font: a point size and the glyphs it covers, looked up by character.
#[derive(Clone, Debug)]
pub struct PixelFont {
    pub size_in_pts: u32,
    pub charset: Vec<(char, PixelFontChar)>,
}

impl PixelFontChar {
    /// The bitmap holds exactly one cell per pixel of the glyph's rectangle.
    pub open spec fn wf(&self) -> bool {
        self.pixels@.len() == self.width * self.height
    }

    /// A glyph from its metrics and cells; `None` where the cell count is not `width * height`.
    pub fn new(width: usize, height: usize, right_offset: usize, pixels: Vec<FontPixel>) -> (r: Option<PixelFontChar>)
        ensures
            r is Some <==> pixels@.len() == width * height,
            r matches Some(g) ==> g.wf() && g.width == width && g.height == height
                && g.right_offset == right_offset && g.pixels@ == pixels@,
    {
        let n = pixels.len();
        if height != 0 && n / height == width && n % height == 0 {
            proof {
                vstd::arithmetic::div_mod::lemma_fundamental_div_mod(n as int, height as int);
                assert(height * width == width * height) by (nonlinear_arith);
            }
            Some(PixelFontChar { width, height, right_offset, pixels })
        } else if height == 0 && n == 0 {
            assert(width * height == 0) by (nonlinear_arith)
                requires
                    height == 0,
            ;
            Some(PixelFontChar { width, height, right_offset, pixels })
        } else {
            proof {
                if height != 0 && n == width * height {
                    vstd::arithmetic::div_mod::lemma_fundamental_div_mod_converse(n as int, height as int, width as int, 0);
                    assert(width * height == width * height + 0);
                }
                if height == 0 {
                    assert(width * height == 0) by (nonlinear_arith)
                        requires
                            height == 0,
                    ;
                }
            }
            None
        }
    }
}

/// The glyph that `charset` gives for `c`: the first entry with that character.
pub open spec fn lookup(charset: Seq<(char, PixelFontChar)>, c: char) -> Option<PixelFontChar>
    decreases charset.len(),
{
    if charset.len() == 0 {
        None
    } else if charset[0].0 == c {
        Some(charset[0].1)
    } else {
        lookup(charset.drop_first(), c)
    }
}

proof fn lemma_lookup_wf(charset: Seq<(char, PixelFontChar)>, c: char)
    requires
        forall|i: int| 0 <= i < charset.len() ==> (#[trigger] charset[i]).1.wf(),
    ensures
        lookup(charset, c) matches Some(g) ==> g.wf(),
    decreases charset.len(),
{
    if charset.len() > 0 && charset[0].0 != c {
        assert forall|i: int| 0 <= i < charset.drop_first().len() implies (#[trigger] charset.drop_first()[i]).1.wf() by {
            assert(charset.drop_first()[i] == charset[i + 1]);
        }
        lemma_lookup_wf(charset.drop_first(), c);
    }
}

impl PixelFont {
    /// Every glyph's bitmap matches its metrics.
    pub open spec fn wf(&self) -> bool {
        forall|i: int| 0 <= i < self.charset@.len() ==> (#[trigger] self.charset@[i]).1.wf()
    }

    pub open spec fn glyph(&self, c: char) -> Option<PixelFontChar> {
        lookup(self.charset@, c)
    }

    pub proof fn lemma_glyph_wf(&self, c: char)
        requires
            self.wf(),
        ensures
            self.glyph(c) matches Some(g) ==> g.wf(),
    {
        lemma_lookup_wf(self.charset@, c);
    }

    /// A font of the given size and glyphs.
    pub fn new(size_in_pts: u32, charset: Vec<(char, PixelFontChar)>) -> (r: PixelFont)
        ensures
            r.size_in_pts == size_in_pts,
            r.charset@ == charset@,
    {
        PixelFont { size_in_pts, charset }
    }

    /// The glyph for `c`, if the font has one.
    pub fn get(&self, c: char) -> (r: Option<&PixelFontChar>)
        ensures
            r matches Some(g) ==> self.glyph(c) == Some(*g),
            r is None ==> self.glyph(c) is None,
    {
        let mut i: usize = 0;
        assert(self.charset@.skip(0) =~= self.charset@);
        while i < self.charset.len()
            invariant
                i <= self.charset@.len(),
                lookup(self.charset@, c) == lookup(self.charset@.skip(i as int), c),
            decreases self.charset@.len() - i,
        {
            let ghost rest = self.charset@.skip(i as int);
            assert(rest[0] == self.charset@[i as int]);
            assert(rest.drop_first() =~= self.charset@.skip(i + 1));
            if self.charset[i].0 == c {
                return Some(&self.charset[i].1);
            }
            i = i + 1;
        }
        assert(self.charset@.skip(i as int).len() == 0);
        None
    }

    /// The built-in 12 pt font.
    pub fn default() -> (r: PixelFont)
        ensures
            r.wf(),
            r.size_in_pts == 12,
            r.charset@.len() == 15,
    {
        let mut charset: Vec<(char, PixelFontChar)> = Vec::new();
    charset.push(('B', glyph_from_alpha(8, 16, 1, vec![
            1, 1, 1, 1, 1, 1, 255, 255,
            1, 1, 1, 1, 1, 1, 1, 255,
            1, 1, 255, 255, 255, 1, 1, 1,
            1, 1, 255, 255, 255, 255, 1, 1,
            1, 1, 255, 255, 255, 255, 1, 1,
            1, 1, 255, 255, 255, 255, 1, 1,
            1, 1, 255, 255, 255, 1, 1, 1,
            1, 1, 1, 1, 1, 1, 1, 255,
            1, 1, 1, 1, 1, 1, 1, 255,
            1, 1, 255, 255, 255, 1, 1, 1,
            1, 1, 255, 255, 255, 255, 1, 1,
            1, 1, 255, 255, 255, 255, 1, 1,
            1, 1, 255, 255, 255, 255, 1, 1,
            1, 1, 255, 255, 255, 1, 1, 1,
            1, 1, 1, 1, 1, 1, 1, 255,
            1, 1, 1, 1, 1, 1, 255, 255,
        ])));
    charset.push(('u', glyph_from_alpha(8, 16, 1, vec![
            255, 255, 255, 255, 255, 255, 255, 255,
            255, 255, 255, 255, 255, 255, 255, 255,
            255, 255, 255, 255, 255, 255, 255, 255,
            255, 255, 255, 255, 255, 255, 255, 255,
            255, 255, 255, 255, 255, 255, 255, 255,
            255, 255, 255, 255, 255, 255, 255, 255,
            255, 255, 255, 255, 255, 255, 255, 255,
            255, 255, 255, 255, 255, 255, 255, 255,
            1, 1, 255, 255, 255, 255, 1, 1,
            1, 1, 255, 255, 255, 255, 1, 1,
            1, 1, 255, 255, 255, 255, 1, 1,
            1, 1, 255, 255, 255, 255, 1, 1,
            1, 1, 255, 255, 255, 255, 1, 1,
            1, 1, 1, 255, 255, 1, 1, 1,
            255, 1, 1, 1, 1, 1, 1, 1,
            255, 255, 1, 1, 1, 1, 1, 1,
        ])));
    charset.push(('t', glyph_from_alpha(6, 16, 1, vec![
            255, 255, 1, 1, 255, 255,
            255, 255, 1, 1, 255, 255,
            255, 255, 1, 1, 255, 255,
            255, 255, 1, 1, 255, 255,
            1, 1, 1, 1, 1, 1,
            1, 1, 1, 1, 1, 1,
            255, 255, 1, 1, 255, 255,
            255, 255, 1, 1, 255, 255,
            255, 255, 1, 1, 255, 255,
            255, 255, 1, 1, 255, 255,
            255, 255, 1, 1, 255, 255,
            255, 255, 1, 1, 255, 255,
            255, 255, 1, 1, 255, 255,
            255, 255, 1, 1, 255, 255,
            255, 255, 1, 1, 255, 255,
            255, 255, 1, 1, 255, 255,
        ])));
    charset.push(('o', glyph_from_alpha(6, 16, 1, vec![
            255, 255, 255, 255, 255, 255,
            255, 255, 255, 255, 255, 255,
            255, 255, 255, 255, 255, 255,
            255, 255, 255, 255, 255, 255,
            255, 255, 255, 255, 255, 255,
            255, 255, 255, 255, 255, 255,
            255, 255, 255, 255, 255, 255,
            255, 255, 255, 255, 255, 255,
            255, 255, 1, 1, 255, 255,
            255, 1, 1, 1, 1, 255,
            1, 1, 255, 255, 1, 1,
            1, 1, 255, 255, 1, 1,
            1, 1, 255, 255, 1, 1,
            1, 1, 255, 255, 1, 1,
            255, 1, 1, 1, 1, 255,
            255, 255, 1, 1, 255, 255,
        ])));
    charset.push(('n', glyph_from_alpha(7, 16, 1, vec![
            255, 255, 255, 255, 255, 255, 255,
            255, 255, 255, 255, 255, 255, 255,
            255, 255, 255, 255, 255, 255, 255,
            255, 255, 255, 255, 255, 255, 255,
            255, 255, 255, 255, 255, 255, 255,
            255, 255, 255, 255, 255, 255, 255,
            255, 255, 255, 255, 255, 255, 255,
            255, 255, 255, 255, 255, 255, 255,
            1, 1, 255, 1, 1, 255, 255,
            1, 1, 1, 1, 1, 1, 255,
            1, 1, 1, 255, 1, 1, 1,
            1, 1, 255, 255, 255, 1, 1,
            1, 1, 255, 255, 255, 1, 1,
            1, 1, 255, 255, 255, 1, 1,
            1, 1, 255, 255, 255, 1, 1,
            1, 1, 255, 255, 255, 1, 1,
        ])));
    charset.push((' ', glyph_from_alpha(8, 16, 1, vec![
            255, 255, 255, 255, 255, 255, 255, 255,
            255, 255, 255, 255, 255, 255, 255, 255,
            255, 255, 255, 255, 255, 255, 255, 255,
            255, 255, 255, 255, 255, 255, 255, 255,
            255, 255, 255, 255, 255, 255, 255, 255,
            255, 255, 255, 255, 255, 255, 255, 255,
            255, 255, 255, 255, 255, 255, 255, 255,
            255, 255, 255, 255, 255, 255, 255, 255,
            255, 255, 255, 255, 255, 255, 255, 255,
            255, 255, 255, 255, 255, 255, 255, 255,
            255, 255, 255, 255, 255, 255, 255, 255,
            255, 255, 255, 255, 255, 255, 255, 255,
            255, 255, 255, 255, 255, 255, 255, 255,
            255, 255, 255, 255, 255, 255, 255, 255,
            255, 255, 255, 255, 255, 255, 255, 255,
            255, 255, 255, 255, 255, 255, 255, 255,
        ])));
    charset.push(('T', glyph_from_alpha(8, 16, 1, vec![
            255, 1, 1, 1, 1, 1, 1, 1,
            1, 1, 1, 1, 1, 1, 1, 255,
            255, 255, 255, 1, 1, 255, 255, 255,
            255, 255, 255, 1, 1, 255, 255, 255,
            255, 255, 255, 1, 1, 255, 255, 255,
            255, 255, 255, 1, 1, 255, 255, 255,
            255, 255, 255, 1, 1, 255, 255, 255,
            255, 255, 255, 1, 1, 255, 255, 255,
            255, 255, 255, 1, 1, 255, 255, 255,
            255, 255, 255, 1, 1, 255, 255, 255,
            255, 255, 255, 1, 1, 255, 255, 255,
            255, 255, 255, 1, 1, 255, 255, 255,
            255, 255, 255, 1, 1, 255, 255, 255,
            255, 255, 255, 1, 1, 255, 255, 255,
            255, 255, 255, 1, 1, 255, 255, 255,
            255, 255, 255, 1, 1, 255, 255, 255,
        ])));
    charset.push(('i', glyph_from_alpha(2, 16, 1, vec![
            255, 255,
            255, 255,
            255, 255,
            255, 255,
            255, 255,
            1, 1,
            1, 1,
            255, 255,
            1, 1,
            1, 1,
            1, 1,
            1, 1,
            1, 1,
            1, 1,
            1, 1,
            1, 1,
        ])));
    charset.push(('l', glyph_from_alpha(2, 16, 1, vec![
            255, 255,
            1, 1,
            1, 1,
            1, 1,
            1, 1,
            1, 1,
            1, 1,
            1, 1,
            1, 1,
            1, 1,
            1, 1,
            1, 1,
            1, 1,
            1, 1,
            1, 1,
            1, 1,
        ])));
    charset.push(('e', glyph_from_alpha(6, 16, 1, vec![
            255, 255, 255, 255, 255, 255,
            255, 255, 255, 255, 255, 255,
            255, 255, 255, 255, 255, 255,
            255, 255, 255, 255, 255, 255,
            255, 255, 255, 255, 255, 255,
            255, 255, 255, 255, 255, 255,
            255, 255, 255, 255, 255, 255,
            255, 255, 255, 255, 255, 255,
            255, 1, 1, 1, 1, 255,
            1, 1, 1, 1, 1, 1,
            1, 1, 255, 255, 1, 1,
            1, 1, 1, 1, 1, 1,
            1, 1, 255, 255, 255, 255,
            1, 1, 255, 255, 1, 1,
            1, 1, 1, 1, 1, 1,
            255, 1, 1, 1, 1, 255,
        ])));
    charset.push(('S', glyph_from_alpha(8, 16, 1, vec![
            255, 255, 1, 1, 1, 1, 255, 255,
            255, 1, 1, 1, 1, 1, 1, 255,
            1, 1, 1, 255, 255, 1, 1, 1,
            1, 1, 255, 255, 255, 255, 1, 1,
            1, 1, 255, 255, 255, 255, 255, 255,
            1, 1, 1, 255, 255, 255, 255, 255,
            255, 1, 1, 1, 255, 255, 255, 255,
            255, 255, 1, 1, 1, 255, 255, 255,
            255, 255, 255, 1, 1, 1, 255, 255,
            255, 255, 255, 255, 1, 1, 1, 255,
            255, 255, 255, 255, 255, 1, 1, 1,
            255, 255, 255, 255, 255, 255, 1, 1,
            1, 1, 255, 255, 255, 255, 1, 1,
            1, 1, 1, 255, 255, 1, 1, 1,
            255, 1, 1, 1, 1, 1, 1, 255,
            255, 255, 1, 1, 1, 1, 255, 255,
        ])));
    charset.push(('c', glyph_from_alpha(6, 16, 1, vec![
            255, 255, 255, 255, 255, 255,
            255, 255, 255, 255, 255, 255,
            255, 255, 255, 255, 255, 255,
            255, 255, 255, 255, 255, 255,
            255, 255, 255, 255, 255, 255,
            255, 255, 255, 255, 255, 255,
            255, 255, 255, 255, 255, 255,
            255, 255, 255, 255, 255, 255,
            255, 255, 1, 1, 255, 255,
            255, 1, 1, 1, 1, 255,
            1, 1, 255, 255, 1, 1,
            1, 1, 255, 255, 255, 255,
            1, 1, 255, 255, 255, 255,
            1, 1, 255, 255, 1, 1,
            255, 1, 1, 1, 1, 255,
            255, 255, 1, 1, 255, 255,
        ])));
    charset.push(('d', glyph_from_alpha(7, 16, 0, vec![
            255, 255, 255, 255, 255, 1, 1,
            255, 255, 255, 255, 255, 1, 1,
            255, 255, 255, 255, 255, 1, 1,
            255, 255, 255, 255, 255, 1, 1,
            255, 255, 255, 255, 255, 1, 1,
            255, 255, 255, 255, 255, 1, 1,
            255, 255, 255, 255, 255, 1, 1,
            255, 255, 255, 255, 255, 1, 1,
            255, 255, 1, 1, 255, 1, 1,
            255, 1, 1, 1, 1, 1, 1,
            1, 1, 255, 255, 1, 1, 1,
            1, 1, 255, 255, 255, 1, 1,
            1, 1, 255, 255, 255, 1, 1,
            1, 1, 255, 255, 1, 1, 1,
            255, 1, 1, 1, 1, 1, 1,
            255, 255, 1, 1, 255, 1, 1,
        ])));
    charset.push(('{', glyph_from_alpha(4, 16, 1, vec![
            255, 255, 1, 1,
            255, 1, 1, 255,
            255, 1, 1, 255,
            255, 1, 1, 255,
            255, 1, 1, 255,
            255, 1, 1, 255,
            255, 1, 1, 255,
            1, 1, 255, 255,
            1, 1, 255, 255,
            255, 1, 1, 255,
            255, 1, 1, 255,
            255, 1, 1, 255,
            255, 1, 1, 255,
            255, 1, 1, 255,
            255, 1, 1, 255,
            255, 255, 1, 1,
        ])));
    charset.push(('}', glyph_from_alpha(4, 16, 1, vec![
            1, 1, 255, 255,
            255, 1, 1, 255,
            255, 1, 1, 255,
            255, 1, 1, 255,
            255, 1, 1, 255,
            255, 1, 1, 255,
            255, 1, 1, 255,
            255, 255, 1, 1,
            255, 255, 1, 1,
            255, 1, 1, 255,
            255, 1, 1, 255,
            255, 1, 1, 255,
            255, 1, 1, 255,
            255, 1, 1, 255,
            255, 1, 1, 255,
            1, 1, 255, 255,
        ])));
        PixelFont { size_in_pts: 12, charset }
    }
}

/// A glyph whose cells have the given coverage values.
fn glyph_from_alpha(width: usize, height: usize, right_offset: usize, alpha: Vec<u8>) -> (r: PixelFontChar)
    requires
        alpha@.len() == width * height,
    ensures
        r.wf(),
        r.width == width,
        r.height == height,
        r.right_offset == right_offset,
        forall|i: int| 0 <= i < alpha@.len() ==> (#[trigger] r.pixels@[i]).alpha == alpha@[i],
{
    let mut pixels: Vec<FontPixel> = Vec::new();
    let mut i: usize = 0;
    while i < alpha.len()
        invariant
            i <= alpha@.len(),
            pixels@.len() == i,
            forall|j: int| 0 <= j < i ==> (#[trigger] pixels@[j]).alpha == alpha@[j],
        decreases alpha@.len() - i,
    {
        pixels.push(FontPixel { alpha: alpha[i] });
        i = i + 1;
    }
    PixelFontChar { width, height, right_offset, pixels }
}

} // verus!
