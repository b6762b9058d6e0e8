use vstd::prelude::*;
use crate::cache::RenderCache;
use crate::geometry::{
    Pixel, Color, WidgetBounds, Tile, paint_row, row_end, bottom_rule, draw_on_top_at, draw_bottom_rule,
    filled, advance, sat,
};
use crate::pixel_font::PixelFont;
use crate::text_widget::{TextWidget, white_page};
use crate::widget::{WidgetKind, kinds};
use crate::mouse::{MouseCallbackRegistrar, MouseEvent, MousePosition};

verus! {

/// The height of one entry of a button's fold-out menu.
pub const ACTION_ROW_HEIGHT: usize = 16;

/// Where the first button of a top bar starts, and the gap between buttons.
pub const BAR_LEFT_MARGIN: usize = 10;
pub const BAR_TOP_MARGIN: usize = 7;
pub const BAR_BUTTON_GAP: usize = 20;

pub open spec fn black_px() -> Pixel {
    [0u8, 0u8, 0u8, 255u8]
}

/// The widest of the entries' labels, or 0.
pub open spec fn widest(entries: Seq<TextWidget>) -> int
    decreases entries.len(),
{
    if entries.len() == 0 {
        0
    } else if entries.last().min_width() > widest(entries.drop_last()) {
        entries.last().min_width()
    } else {
        widest(entries.drop_last())
    }
}

/// A button of the top bar (global menu): a label, and the entries of the menu it folds out.
pub struct TopBarButton {
    pub text: Box<TextWidget>,
    pub actions: Vec<TextWidget>,
    pub opened: bool,
    pub cache: RenderCache,
}

impl TopBarButton {
    pub open spec fn wf(&self) -> bool {
        &&& self.text.wf()
        &&& self.cache.wf()
        &&& forall|i: int| 0 <= i < self.actions@.len() ==> (#[trigger] self.actions@[i]).wf()
    }

    /// The size of the fold-out menu: as wide as its widest entry, one row per entry.
    pub open spec fn action_box(&self) -> (int, int) {
        (widest(self.actions@), sat(self.actions@.len() * ACTION_ROW_HEIGHT))
    }

    /// The button's size: its label's while closed, its menu's while open.
    pub open spec fn min_width(&self) -> int {
        if self.opened {
            self.action_box().0
        } else {
            self.text.min_width()
        }
    }

    pub open spec fn min_height(&self) -> int {
        if self.opened {
            self.action_box().1
        } else {
            self.text.min_height()
        }
    }

    /// Whether a buffer of the button's size, closed or open, fits in memory.
    pub open spec fn renderable(&self) -> bool {
        &&& self.wf()
        &&& self.text.min_width() * self.text.min_height() <= usize::MAX
        &&& self.action_box().0 * self.action_box().1 <= usize::MAX
    }

    /// Whether a `w` x `h` request is answered from the cache.
    pub open spec fn idle(&self, w: usize, h: usize) -> bool {
        self.cache.reusable(w, h)
    }

    /// A closed button with `label`, in the built-in font, black on white.
    pub fn new(label: &str, actions: Vec<&str>) -> (r: TopBarButton)
        ensures
            r.wf(),
            !r.opened,
            r.text.text@ == label@,
            r.text.foreground_col == (Color { r: 0, g: 0, b: 0 }),
            r.text.background_col == (Color { r: 255, g: 255, b: 255 }),
            r.actions@.len() == actions@.len(),
            forall|i: int| 0 <= i < actions@.len() ==> (#[trigger] r.actions@[i]).text@ == actions@[i]@,
            !r.cache.filled,
            r.cache.needs_redraw,
    {
        let text = Box::new(
            TextWidget::new(Box::new(PixelFont::default()), false, label, Color::black(), Color::white()),
        );
        let mut entries: Vec<TextWidget> = Vec::new();
        let mut i: usize = 0;
        while i < actions.len()
            invariant
                i <= actions@.len(),
                entries@.len() == i,
                forall|j: int| 0 <= j < i ==> (#[trigger] entries@[j]).wf() && entries@[j].text@ == actions@[j]@,
            decreases actions@.len() - i,
        {
            let e = TextWidget::new(Box::new(PixelFont::default()), false, actions[i], Color::black(), Color::white());
            entries.push(e);
            i = i + 1;
        }
        TopBarButton { text, actions: entries, opened: false, cache: RenderCache::new() }
    }

    /// The width of the fold-out menu: that of its widest entry.
    pub fn get_max_action_box_width(&self) -> (r: usize)
        ensures
            r == self.action_box().0,
    {
        let mut best: usize = 0;
        let mut i: usize = 0;
        assert(self.actions@.take(0) =~= Seq::<TextWidget>::empty());
        while i < self.actions.len()
            invariant
                i <= self.actions@.len(),
                best == widest(self.actions@.take(i as int)),
            decreases self.actions@.len() - i,
        {
            let b = self.actions[i].get_min_bounds();
            assert(self.actions@.take(i + 1).drop_last() =~= self.actions@.take(i as int));
            if b.width > best {
                best = b.width;
            }
            i = i + 1;
        }
        assert(self.actions@.take(i as int) =~= self.actions@);
        best
    }

    /// The height of the fold-out menu: one row per entry.
    pub fn get_max_action_box_height(&self) -> (r: usize)
        ensures
            r == self.action_box().1,
    {
        match self.actions.len().checked_mul(ACTION_ROW_HEIGHT) {
            Some(v) => v,
            None => usize::MAX,
        }
    }

    pub fn get_min_bounds(&self) -> (r: WidgetBounds)
        ensures
            r.width == self.min_width(),
            r.height == self.min_height(),
    {
        if !self.opened {
            self.text.get_min_bounds()
        } else {
            WidgetBounds { width: self.get_max_action_box_width(), height: self.get_max_action_box_height() }
        }
    }

    /// Whether [`Self::renderable`] holds.
    pub fn is_renderable(&self) -> (r: bool)
        requires
            self.wf(),
        ensures
            r == self.renderable(),
    {
        let t = self.text.get_min_bounds();
        let w = self.get_max_action_box_width();
        let h = self.get_max_action_box_height();
        t.width.checked_mul(t.height).is_some() && w.checked_mul(h).is_some()
    }

    /// The label drawn into a `width` x `height` buffer, or `None` where the cache holds
    /// that very render and the button has not changed since.
    pub fn render(&mut self, width: usize, height: usize) -> (r: Option<Vec<Pixel>>)
        requires
            old(self).wf(),
            width * height <= usize::MAX,
        ensures
            final(self).wf(),
            final(self).text == old(self).text,
            final(self).actions == old(self).actions,
            final(self).opened == old(self).opened,
            final(self).idle(width, height),
            r is None <==> old(self).idle(width, height),
            r is None ==> final(self).cache == old(self).cache,
            r matches Some(b) ==> b@ == old(self).text.picture(width as nat, height as nat)
                && final(self).cache.holds(b@, width, height),
    {
        if self.cache.can_reuse(width, height) {
            return None;
        }
        let buf = self.text.draw(width, height);
        self.cache.store(&buf, width, height);
        Some(buf)
    }

    /// The last buffer rendered; empty before the first render.
    pub fn get_cache(&mut self) -> (r: Vec<Pixel>)
        ensures
            *final(self) == *old(self),
            r@ == old(self).cache.buffer@,
    {
        self.cache.contents()
    }

    /// The label, then one text per menu entry.
    pub fn get_children(&self) -> (r: Option<Vec<WidgetKind>>)
        ensures
            r matches Some(v) && v@ == Seq::new(self.actions@.len() + 1, |i: int| WidgetKind::Text),
    {
        let mut v = kinds(WidgetKind::Text, self.actions.len());
        v.push(WidgetKind::Text);
        assert(v@ =~= Seq::new(self.actions@.len() + 1, |i: int| WidgetKind::Text));
        Some(v)
    }

    /// A press opens a closed menu and closes an open one.
    pub fn toggle(&mut self)
        ensures
            final(self).opened == !old(self).opened,
            final(self).cache.needs_redraw,
            final(self).text == old(self).text,
            final(self).actions == old(self).actions,
            final(self).cache.wf() == old(self).cache.wf(),
    {
        self.opened = !self.opened;
        self.cache.mark_dirty();
    }
}

/// How a button stands in the top bar's row: its last render, at its own size.
pub open spec fn button_tile(b: TopBarButton) -> Tile {
    Tile {
        pixels: b.cache.buffer@,
        width: b.min_width() as nat,
        height: b.min_height() as nat,
        gap: BAR_BUTTON_GAP as nat,
    }
}

pub open spec fn button_tiles(buttons: Seq<TopBarButton>) -> Seq<Tile> {
    Seq::new(buttons.len(), |i: int| button_tile(buttons[i]))
}

/// The top bar: white, its buttons in a row from `(10, 7)`, 20 pixels apart, and a black
/// line along the bottom edge.
pub open spec fn bar_picture(buttons: Seq<TopBarButton>, w: nat, h: nat) -> Seq<Pixel> {
    bottom_rule(
        paint_row(white_page(w, h), w, h, button_tiles(buttons), BAR_LEFT_MARGIN as int, BAR_TOP_MARGIN as int),
        w,
        h,
        black_px(),
    )
}

/// What rendering leaves of a button: the same button, its cache holding its label at
/// its own size.
pub open spec fn button_rendered(before: TopBarButton, after: TopBarButton) -> bool {
    &&& after.wf()
    &&& after.renderable()
    &&& after.text == before.text
    &&& after.actions == before.actions
    &&& after.opened == before.opened
    &&& after.idle(before.min_width() as usize, before.min_height() as usize)
    &&& after.cache.buffer@.len() == before.min_width() * before.min_height()
}

/// The top bar, or global menu, of a window: a row of buttons.
pub struct TopBarWidget {
    pub buttons: Vec<TopBarButton>,
    pub cache: RenderCache,
}

impl TopBarWidget {
    pub open spec fn wf(&self) -> bool {
        &&& self.cache.wf()
        &&& forall|i: int| 0 <= i < self.buttons@.len() ==> (#[trigger] self.buttons@[i]).renderable()
    }

    /// Whether some button would render afresh.
    pub open spec fn child_changed(&self) -> bool {
        exists|i: int|
            0 <= i < self.buttons@.len() && !(#[trigger] self.buttons@[i]).idle(
                self.buttons@[i].min_width() as usize,
                self.buttons@[i].min_height() as usize,
            )
    }

    /// Whether a `w` x `h` request is answered from the cache.
    pub open spec fn idle(&self, w: usize, h: usize) -> bool {
        self.cache.reusable(w, h) && !self.child_changed()
    }

    /// The size the bar needs: its row of buttons with the margins round it.
    pub open spec fn min_width(&self) -> int {
        row_end(button_tiles(self.buttons@), BAR_LEFT_MARGIN as int)
    }

    pub open spec fn min_height(&self) -> int {
        sat(crate::geometry::row_height(button_tiles(self.buttons@)) + BAR_TOP_MARGIN + 1)
    }

    /// The buttons, in order.
    pub fn get_children(&self) -> (r: Option<Vec<WidgetKind>>)
        ensures
            r matches Some(v) && v@ == Seq::new(self.buttons@.len(), |i: int| WidgetKind::TopBarButton),
    {
        Some(kinds(WidgetKind::TopBarButton, self.buttons.len()))
    }

    /// The size the bar needs: the row of buttons with its left margin and the trailing
    /// gap, and the tallest button with the top margin and the bottom line.
    pub fn get_min_bounds(&self) -> (r: WidgetBounds)
        ensures
            r.width == self.min_width(),
            r.height == self.min_height(),
    {
        let ghost tiles = button_tiles(self.buttons@);
        let mut w: usize = BAR_LEFT_MARGIN;
        let mut h: usize = 0;
        let mut i: usize = 0;
        assert(tiles.take(0) =~= Seq::<Tile>::empty());
        while i < self.buttons.len()
            invariant
                i <= self.buttons@.len(),
                tiles == button_tiles(self.buttons@),
                w == row_end(tiles.take(i as int), BAR_LEFT_MARGIN as int),
                h == crate::geometry::row_height(tiles.take(i as int)),
            decreases self.buttons@.len() - i,
        {
            assert(tiles.take(i + 1).drop_last() =~= tiles.take(i as int));
            assert(tiles.take(i + 1).last() == tiles[i as int]);
            let b = self.buttons[i].get_min_bounds();
            w = advance(w, b.width, BAR_BUTTON_GAP);
            if b.height > h {
                h = b.height;
            }
            i = i + 1;
        }
        assert(tiles.take(i as int) =~= tiles);
        WidgetBounds { width: w, height: advance(h, BAR_TOP_MARGIN, 1) }
    }

    /// A bar of `buttons`, not rendered yet.
    pub fn new(buttons: Vec<TopBarButton>) -> (r: TopBarWidget)
        requires
            forall|i: int| 0 <= i < buttons@.len() ==> (#[trigger] buttons@[i]).renderable(),
        ensures
            r.wf(),
            r.buttons@ == buttons@,
            !r.cache.filled,
            r.cache.needs_redraw,
    {
        TopBarWidget { buttons, cache: RenderCache::new() }
    }

    /// Renders each button at its own size (each one decides whether to reuse its cache),
    /// then the bar, unless its cache holds this very size and no button changed.
    pub fn render(&mut self, width: usize, height: usize) -> (r: Option<Vec<Pixel>>)
        requires
            old(self).wf(),
            width * height <= usize::MAX,
        ensures
            final(self).wf(),
            final(self).idle(width, height),
            final(self).buttons@.len() == old(self).buttons@.len(),
            forall|i: int|
                0 <= i < old(self).buttons@.len() ==> button_rendered(
                    #[trigger] old(self).buttons@[i],
                    final(self).buttons@[i],
                ),
            r is None <==> old(self).idle(width, height),
            r is None ==> final(self).cache == old(self).cache,
            r matches Some(b) ==> b@ == bar_picture(final(self).buttons@, width as nat, height as nat)
                && final(self).cache.holds(b@, width, height),
    {
        let ghost before = self.buttons@;
        let n = self.buttons.len();
        let mut changed = false;
        let mut i: usize = 0;
        while i < n
            invariant
                n == before.len(),
                self.buttons@.len() == n,
                i <= n,
                self.cache == old(self).cache,
                before == old(self).buttons@,
                forall|j: int| 0 <= j < i ==> button_rendered(#[trigger] before[j], self.buttons@[j]),
                forall|j: int| i <= j < n ==> #[trigger] self.buttons@[j] == before[j],
                forall|j: int| 0 <= j < n ==> (#[trigger] before[j]).renderable(),
                changed <==> exists|j: int|
                    0 <= j < i && !(#[trigger] before[j]).idle(before[j].min_width() as usize, before[j].min_height() as usize),
            decreases n - i,
        {
            let mut b = self.buttons.remove(i);
            let bounds = b.get_min_bounds();
            assert(b == before[i as int]);
            let fresh = b.render(bounds.width, bounds.height);
            if fresh.is_some() {
                changed = true;
            }
            self.buttons.insert(i, b);
            i = i + 1;
        }
        assert forall|j: int| 0 <= j < n implies (#[trigger] self.buttons@[j]).renderable() && self.buttons@[j].idle(
            self.buttons@[j].min_width() as usize,
            self.buttons@[j].min_height() as usize,
        ) by {
            assert(button_rendered(before[j], self.buttons@[j]));
        }
        assert(!self.child_changed());
        if !changed && self.cache.can_reuse(width, height) {
            proof {
                assert(!old(self).child_changed());
            }
            return None;
        }
        assert(old(self).idle(width, height) ==> !changed);
        let ghost tiles = button_tiles(self.buttons@);
        let ghost page = white_page(width as nat, height as nat);
        let mut buf = filled([255u8, 255u8, 255u8, 255u8], width * height);
        assert(buf@ =~= page);
        let mut xoff: usize = BAR_LEFT_MARGIN;
        let mut k: usize = 0;
        assert(tiles.take(0) =~= Seq::<Tile>::empty());
        while k < n
            invariant
                k <= n,
                self.buttons@.len() == n,
                tiles == button_tiles(self.buttons@),
                page == white_page(width as nat, height as nat),
                forall|j: int| 0 <= j < n ==> button_rendered(#[trigger] before[j], self.buttons@[j]),
                !self.child_changed(),
                forall|j: int| 0 <= j < n ==> (#[trigger] self.buttons@[j]).renderable(),
                self.cache == old(self).cache,
                buf@.len() == width * height,
                buf@ == paint_row(page, width as nat, height as nat, tiles.take(k as int), BAR_LEFT_MARGIN as int, BAR_TOP_MARGIN as int),
                xoff == row_end(tiles.take(k as int), BAR_LEFT_MARGIN as int),
            decreases n - k,
        {
            proof {
                assert(tiles.take(k + 1).drop_last() =~= tiles.take(k as int));
                assert(tiles.take(k + 1).last() == tiles[k as int]);
            }
            assert(button_rendered(before[k as int], self.buttons@[k as int]));
            let bounds = self.buttons[k].get_min_bounds();
            let px = self.buttons[k].cache.contents();
            buf = draw_on_top_at(xoff, BAR_TOP_MARGIN, buf, width, height, &px, bounds.width, bounds.height);
            xoff = advance(xoff, bounds.width, BAR_BUTTON_GAP);
            k = k + 1;
        }
        assert(tiles.take(k as int) =~= tiles);
        let out = draw_bottom_rule(buf, width, height, [0u8, 0u8, 0u8, 255u8]);
        self.cache.store(&out, width, height);
        Some(out)
    }

    /// The last buffer rendered; empty before the first render.
    pub fn get_cache(&mut self) -> (r: Vec<Pixel>)
        ensures
            *final(self) == *old(self),
            r@ == old(self).cache.buffer@,
    {
        self.cache.contents()
    }

    /// The bar takes no input yet: its buttons' menus open through [`TopBarButton::toggle`].
    pub fn handle_mouse_event(
        &mut self,
        mouse_position: MousePosition,
        relative_mouse_position: MousePosition,
        mouse_event: MouseEvent,
        registrar: &mut MouseCallbackRegistrar,
    )
        ensures
            *final(self) == *old(self),
            final(registrar).callbacks@ == old(registrar).callbacks@,
    {
    }
}

} // verus!
