use vstd::prelude::*;
use crate::geometry::{Pixel, WidgetBounds, Placed, Tile, blit, paint_placed, filled, draw_on_top_at};
use crate::mouse::{MouseCallbackRegistrar, MouseEvent, MousePosition, UiIntent, kept, fired};
use crate::text_widget::white_page;
use crate::window::{WindowWidget, window_event, WINDOW_TOP_BAR_HEIGHT};

verus! {

/// The height of the band along the top of the screen that shows the focused window's top bar.
pub const TOP_BAR_HEIGHT: usize = 30;

pub open spec fn mid_gray_px() -> Pixel {
    [128u8, 128u8, 128u8, 128u8]
}

/// The kinds of node in the widget tree, as a parent lists its children.
#[derive(Clone, Copy, PartialEq, Eq, Structural, Debug)]
pub enum WidgetKind {
    Text,
    Rect,
    TopBarButton,
    TopBar,
    WindowTopBar,
    WindowTopBarButton,
    Window,
}

/// `n` children of one kind.
pub fn kinds(kind: WidgetKind, n: usize) -> (r: Vec<WidgetKind>)
    ensures
        r@ == Seq::new(n as nat, |i: int| kind),
{
    let mut r: Vec<WidgetKind> = Vec::new();
    let mut i: usize = 0;
    while i < n
        invariant
            i <= n,
            r@ =~= Seq::new(i as nat, |j: int| kind),
        decreases n - i,
    {
        r.push(kind);
        i = i + 1;
    }
    r
}

/// A flat mid-gray rectangle: the placeholder body of a window.
pub struct RectWidget {
    pub rec_width: usize,
    pub rec_height: usize,
}

impl RectWidget {
    pub fn new(rec_width: usize, rec_height: usize) -> (r: RectWidget)
        ensures
            r.rec_width == rec_width,
            r.rec_height == rec_height,
    {
        RectWidget { rec_width, rec_height }
    }

    pub open spec fn picture(w: nat, h: nat) -> Seq<Pixel> {
        Seq::new(w * h, |i: int| mid_gray_px())
    }

    /// A fresh mid-gray buffer of `width` x `height`.
    pub fn render(&mut self, width: usize, height: usize) -> (r: Option<Vec<Pixel>>)
        requires
            width * height <= usize::MAX,
        ensures
            *final(self) == *old(self),
            r matches Some(b) && b@ == Self::picture(width as nat, height as nat),
    {
        let b = filled([128u8, 128u8, 128u8, 128u8], width * height);
        assert(b@ =~= Self::picture(width as nat, height as nat));
        Some(b)
    }

    pub fn get_min_bounds(&self) -> (r: WidgetBounds)
        ensures
            r.width == self.rec_width,
            r.height == self.rec_height,
    {
        WidgetBounds { width: self.rec_width, height: self.rec_height }
    }

    /// The rectangle drawn at its own size.
    pub fn get_cache(&mut self) -> (r: Vec<Pixel>)
        requires
            old(self).rec_width * old(self).rec_height <= usize::MAX,
        ensures
            *final(self) == *old(self),
            r@ == Self::picture(old(self).rec_width as nat, old(self).rec_height as nat),
    {
        let b = filled([128u8, 128u8, 128u8, 128u8], self.rec_width * self.rec_height);
        assert(b@ =~= Self::picture(self.rec_width as nat, self.rec_height as nat));
        b
    }

    /// A leaf: no children.
    pub fn get_children(&self) -> (r: Option<Vec<WidgetKind>>)
        ensures
            r is None,
    {
        None
    }

    /// The body takes no input yet.
    pub fn handle_mouse_event(
        &mut self,
        mouse_position: MousePosition,
        relative_mouse_position: MousePosition,
        mouse_event: MouseEvent,
        registrar: &mut MouseCallbackRegistrar,
    )
        ensures
            *final(self) == *old(self),
            final(registrar).callbacks@ == old(registrar).callbacks@,
    {
    }
}


/// Whether `pos` lies strictly inside window `w`'s rectangle.
pub open spec fn window_contains(w: WindowWidget, pos: MousePosition) -> bool {
    w.x_position < pos.x_position < w.x_position + w.width && w.y_position < pos.y_position < w.y_position
        + w.height
}

/// Whether `i` is the first window, in registration order, whose rectangle holds `pos`.
pub open spec fn is_first_hit(ws: Seq<WindowWidget>, pos: MousePosition, i: int) -> bool {
    &&& 0 <= i < ws.len()
    &&& window_contains(ws[i], pos)
    &&& forall|j: int| 0 <= j < i ==> !window_contains(#[trigger] ws[j], pos)
}

/// Whether `i` is the first window with identifier `id`.
pub open spec fn is_first_with_id(ws: Seq<WindowWidget>, id: usize, i: int) -> bool {
    &&& 0 <= i < ws.len()
    &&& ws[i].id == id
    &&& forall|j: int| 0 <= j < i ==> (#[trigger] ws[j]).id != id
}

/// A window as the desktop draws it: its last render, at its own position and size.
pub open spec fn window_placed(w: WindowWidget) -> Placed {
    Placed {
        x: w.x_position as int,
        y: w.y_position as int,
        tile: Tile { pixels: w.cache.buffer@, width: w.width as nat, height: w.height as nat, gap: 0 },
    }
}

/// The windows from last registered to first, so that the first is drawn on top.
pub open spec fn back_to_front(ws: Seq<WindowWidget>) -> Seq<Placed> {
    Seq::new(ws.len(), |k: int| window_placed(ws[ws.len() - 1 - k]))
}

/// The screen: white with no window; else mid-gray, the first window's top bar along the
/// top, and the windows over it, back to front.
pub open spec fn desktop_picture(ws: Seq<WindowWidget>, w: nat, h: nat) -> Seq<Pixel> {
    if ws.len() == 0 {
        white_page(w, h)
    } else {
        paint_placed(
            blit(Seq::new(w * h, |i: int| mid_gray_px()), w, h, 0, 0, ws[0].top_bar.cache.buffer@, w, TOP_BAR_HEIGHT as nat),
            w,
            h,
            back_to_front(ws),
        )
    }
}

/// What rendering leaves of a window: the same window, with nothing left to redraw.
pub open spec fn window_rendered(before: WindowWidget, after: WindowWidget) -> bool {
    &&& after.wf()
    &&& after.idle(before.width, before.height)
    &&& after.is_moving == before.is_moving
    &&& after.x_position == before.x_position
    &&& after.y_position == before.y_position
    &&& after.width == before.width
    &&& after.height == before.height
    &&& after.id == before.id
    &&& after.window_top_bar.button == before.window_top_bar.button
    &&& after.window_top_bar.title == before.window_top_bar.title
}

/// The root of the tree: the desktop and its windows, the first of them focused.
pub struct MainWidget {
    pub width: usize,
    pub height: usize,
    pub windows: Vec<WindowWidget>,
    pub next_id: usize,
}

impl MainWidget {
    pub open spec fn wf(&self) -> bool {
        forall|i: int| 0 <= i < self.windows@.len() ==> (#[trigger] self.windows@[i]).wf()
    }

    pub fn new(width: usize, height: usize) -> (r: MainWidget)
        ensures
            r.wf(),
            r.width == width,
            r.height == height,
            r.windows@.len() == 0,
            r.next_id == 0,
    {
        MainWidget { width, height, windows: Vec::new(), next_id: 0 }
    }

    /// One window child per registered window, in registration order.
    pub fn get_children(&self) -> (r: Option<Vec<WidgetKind>>)
        ensures
            r matches Some(v) && v@ == Seq::new(self.windows@.len(), |i: int| WidgetKind::Window),
    {
        Some(kinds(WidgetKind::Window, self.windows.len()))
    }

    /// Adds `window` after the others and gives it the next identifier.
    pub fn reg_window(&mut self, window: WindowWidget)
        requires
            old(self).wf(),
            window.wf(),
        ensures
            final(self).wf(),
            final(self).windows@.len() == old(self).windows@.len() + 1,
            final(self).windows@.drop_last() == old(self).windows@,
            final(self).windows@.last() == (WindowWidget { id: old(self).next_id, ..window }),
            final(self).next_id == crate::geometry::sat(old(self).next_id + 1),
    {
        let mut window = window;
        window.id = self.next_id;
        self.next_id = self.next_id.saturating_add(1);
        self.windows.push(window);
        assert(self.windows@.drop_last() =~= old(self).windows@);
    }

    /// The first window, in registration order, whose rectangle holds `mouse_position`.
    pub fn hit_window(&self, mouse_position: MousePosition) -> (r: Option<usize>)
        ensures
            r matches Some(i) ==> is_first_hit(self.windows@, mouse_position, i as int),
            r is None ==> forall|j: int|
                0 <= j < self.windows@.len() ==> !window_contains(#[trigger] self.windows@[j], mouse_position),
    {
        let x = mouse_position.x_position;
        let y = mouse_position.y_position;
        let mut i: usize = 0;
        while i < self.windows.len()
            invariant
                i <= self.windows@.len(),
                x == mouse_position.x_position,
                y == mouse_position.y_position,
                forall|j: int| 0 <= j < i ==> !window_contains(#[trigger] self.windows@[j], mouse_position),
            decreases self.windows@.len() - i,
        {
            let w = &self.windows[i];
            if x > w.x_position && x - w.x_position < w.width && y > w.y_position && y - w.y_position < w.height {
                return Some(i);
            }
            i = i + 1;
        }
        None
    }

    /// Draws the desktop at `width` x `height`. Each window renders at its own size and
    /// decides for itself whether to reuse its cache.
    pub fn render(&mut self, width: usize, height: usize) -> (r: Vec<Pixel>)
        requires
            old(self).wf(),
            width * height <= usize::MAX,
            width * TOP_BAR_HEIGHT <= usize::MAX,
        ensures
            final(self).wf(),
            final(self).windows@.len() == old(self).windows@.len(),
            forall|i: int|
                0 <= i < old(self).windows@.len() ==> window_rendered(
                    #[trigger] old(self).windows@[i],
                    final(self).windows@[i],
                ),
            r@ == desktop_picture(final(self).windows@, width as nat, height as nat),
    {
        let n = self.windows.len();
        if n == 0 {
            let b = filled([255u8, 255u8, 255u8, 255u8], width * height);
            assert(b@ =~= white_page(width as nat, height as nat));
            return b;
        }
        let ghost before = self.windows@;
        let mut first = self.windows.remove(0);
        let bar = first.render_top_bar(width, TOP_BAR_HEIGHT);
        self.windows.insert(0, first);
        assert(self.windows@ =~= before.update(0, first));
        let gray = filled([128u8, 128u8, 128u8, 128u8], width * height);
        assert(gray@ =~= Seq::new((width * height) as nat, |i: int| mid_gray_px()));
        let mut buf = draw_on_top_at(0, 0, gray, width, height, &bar, width, TOP_BAR_HEIGHT);
        let ghost base = buf@;
        let ghost mid = self.windows@;
        let mut k: usize = 0;
        assert(back_to_front(self.windows@).take(0) =~= Seq::<Placed>::empty());
        while k < n
            invariant
                n == before.len(),
                n > 0,
                k <= n,
                self.windows@.len() == n,
                width * height <= usize::MAX,
                buf@.len() == width * height,
                self.windows@[0].top_bar.cache.buffer@ == bar@,
                base == blit(
                    Seq::new((width * height) as nat, |i: int| mid_gray_px()),
                    width as nat,
                    height as nat,
                    0,
                    0,
                    bar@,
                    width as nat,
                    TOP_BAR_HEIGHT as nat,
                ),
                forall|j: int| 0 <= j < n ==> (#[trigger] mid[j]).wf(),
                forall|j: int| 0 <= j < n ==> window_rendered_or_same(#[trigger] before[j], mid[j]),
                forall|j: int| 0 <= j < n - k ==> #[trigger] self.windows@[j] == mid[j],
                forall|j: int| n - k <= j < n ==> window_rendered(#[trigger] before[j], self.windows@[j]),
                buf@ == paint_placed(base, width as nat, height as nat, back_to_front(self.windows@).take(k as int)),
            decreases n - k,
        {
            let j = n - 1 - k;
            let ghost prev = self.windows@;
            let mut win = self.windows.remove(j);
            assert(win == mid[j as int]);
            let b = win.get_min_bounds();
            let px = match win.render(b.width, b.height) {
                Some(v) => v,
                None => win.get_cache(),
            };
            buf = draw_on_top_at(win.x_position, win.y_position, buf, width, height, &px, b.width, b.height);
            self.windows.insert(j, win);
            assert(self.windows@ =~= prev.update(j as int, win));
            proof {
                let done = back_to_front(self.windows@).take(k + 1);
                assert(done.drop_last() =~= back_to_front(prev).take(k as int));
                assert(done.last() == window_placed(win));
                assert(window_rendered(before[j as int], win));
            }
            k = k + 1;
        }
        assert(back_to_front(self.windows@).take(n as int) =~= back_to_front(self.windows@));
        assert forall|i: int| 0 <= i < n implies (#[trigger] self.windows@[i]).wf() by {
            assert(window_rendered(before[i], self.windows@[i]));
        }
        buf
    }

    /// Routes a pointer event down the tree (see [`routed`]).
    pub fn handle_mouse_event(
        &mut self,
        mouse_position: MousePosition,
        mouse_event: MouseEvent,
        mouse_queue: &mut MouseCallbackRegistrar,
    )
        ensures
            old(self).wf() ==> final(self).wf(),
            final(self).width == old(self).width,
            final(self).height == old(self).height,
            final(self).next_id == old(self).next_id,
            routed(
                old(self).windows@,
                final(self).windows@,
                mouse_position,
                mouse_event,
                old(mouse_queue).callbacks@,
                final(mouse_queue).callbacks@,
            ),
    {
        let n = self.windows.len();
        if n == 0 {
            return;
        }
        let ghost before = self.windows@;
        if mouse_position.y_position < TOP_BAR_HEIGHT {
            let mut w = self.windows.remove(0);
            w.handle_mouse_event(mouse_position, mouse_position, mouse_event, mouse_queue);
            self.windows.insert(0, w);
            assert(self.windows@ =~= before.update(0, w));
            return;
        }
        match self.hit_window(mouse_position) {
            Some(i) => {
                assert(is_first_hit(before, mouse_position, i as int));
                proof {
                    let c = choose|c: int| is_first_hit(before, mouse_position, c);
                    if c < i {
                        assert(!window_contains(before[c], mouse_position));
                    }
                    if i < c {
                        assert(!window_contains(before[i as int], mouse_position));
                    }
                    assert(c == i);
                }
                let mut w = self.windows.remove(i);
                w.handle_mouse_event(mouse_position, mouse_position, mouse_event, mouse_queue);
                if mouse_event == MouseEvent::LMBDown {
                    self.windows.insert(0, w);
                    assert(self.windows@.drop_first() =~= before.remove(i as int));
                } else {
                    self.windows.insert(i, w);
                    assert(self.windows@ =~= before.update(i as int, w));
                }
            },
            None => {
                assert(!exists|c: int| is_first_hit(before, mouse_position, c));
            },
        }
    }

    /// Applies an intent handed over by a deferred callback to the window it names.
    pub fn apply_intent(&mut self, intent: UiIntent)
        ensures
            final(self).width == old(self).width,
            final(self).height == old(self).height,
            final(self).next_id == old(self).next_id,
            final(self).windows@.len() == old(self).windows@.len(),
            forall|i: int|
                0 <= i < old(self).windows@.len() ==> if targeted(old(self).windows@, seq![intent], i) {
                    close_released(old(self).windows@[i], #[trigger] final(self).windows@[i])
                } else {
                    final(self).windows@[i] == old(self).windows@[i]
                },
    {
        let ghost before = self.windows@;
        match intent {
            UiIntent::ReleaseCloseButton { window_id } => {
                assert(intent_target(intent) == window_id);
                let mut i: usize = 0;
                while i < self.windows.len()
                    invariant
                        self.windows@ == before,
                        self.width == old(self).width,
                        self.height == old(self).height,
                        self.next_id == old(self).next_id,
                        before == old(self).windows@,
                        intent_target(intent) == window_id,
                        i <= before.len(),
                        forall|j: int| 0 <= j < i ==> (#[trigger] before[j]).id != window_id,
                    decreases before.len() - i,
                {
                    if self.windows[i].id == window_id {
                        let mut w = self.windows.remove(i);
                        release_window(&mut w);
                        self.windows.insert(i, w);
                        assert(self.windows@ =~= before.update(i as int, w));
                        assert forall|j: int| 0 <= j < before.len() implies if targeted(before, seq![intent], j) {
                            close_released(before[j], #[trigger] self.windows@[j])
                        } else {
                            self.windows@[j] == before[j]
                        } by {
                            if j == i {
                                assert(is_first_with_id(before, window_id, j));
                                assert(seq![intent][0] == intent);
                                assert(targeted(before, seq![intent], j));
                            } else {
                                if targeted(before, seq![intent], j) {
                                    let k = choose|k: int| 0 <= k < 1 && is_first_with_id(before, intent_target(#[trigger] seq![intent][k]), j);
                                    assert(seq![intent][k] == intent);
                                    assert(is_first_with_id(before, window_id, j));
                                    if j < i {
                                        assert(before[j].id != window_id);
                                    } else {
                                        assert(before[i as int].id == window_id);
                                    }
                                }
                            }
                        }
                        return;
                    }
                    i = i + 1;
                }
                assert forall|j: int| 0 <= j < before.len() implies !targeted(before, seq![intent], j) by {
                    if targeted(before, seq![intent], j) {
                        let k = choose|k: int| 0 <= k < 1 && is_first_with_id(before, intent_target(#[trigger] seq![intent][k]), j);
                        assert(seq![intent][k] == intent);
                        assert(is_first_with_id(before, window_id, j));
                        assert(before[j].id != window_id);
                    }
                }
            },
        }
    }
}

impl MainWidget {
    /// Runs the deferred callbacks on this tick's pointer state and applies, in queue
    /// order, the intents of those that leave the queue.
    pub fn process_callbacks(
        &mut self,
        mouse_position: MousePosition,
        mouse_event: MouseEvent,
        mouse_queue: &mut MouseCallbackRegistrar,
    )
        ensures
            final(mouse_queue).callbacks@ == kept(old(mouse_queue).callbacks@, mouse_event),
            final(self).width == old(self).width,
            final(self).height == old(self).height,
            final(self).next_id == old(self).next_id,
            final(self).windows@.len() == old(self).windows@.len(),
            forall|i: int|
                0 <= i < old(self).windows@.len() ==> if targeted(
                    old(self).windows@,
                    fired(old(mouse_queue).callbacks@, mouse_event),
                    i,
                ) {
                    close_released(old(self).windows@[i], #[trigger] final(self).windows@[i])
                } else {
                    final(self).windows@[i] == old(self).windows@[i]
                },
    {
        let ghost before = self.windows@;
        let intents = mouse_queue.drain(mouse_position, mouse_event);
        let mut k: usize = 0;
        while k < intents.len()
            invariant
                k <= intents@.len(),
                before == old(self).windows@,
                intents@ == fired(old(mouse_queue).callbacks@, mouse_event),
                self.width == old(self).width,
                self.height == old(self).height,
                self.next_id == old(self).next_id,
                self.windows@.len() == before.len(),
                forall|i: int| 0 <= i < before.len() ==> (#[trigger] self.windows@[i]).id == before[i].id,
                forall|i: int|
                    0 <= i < before.len() ==> if targeted(before, intents@.take(k as int), i) {
                        close_released(before[i], #[trigger] self.windows@[i])
                    } else {
                        self.windows@[i] == before[i]
                    },
            decreases intents@.len() - k,
        {
            let it = intents[k];
            let ghost cur = self.windows@;
            self.apply_intent(it);
            proof {
                assert forall|i: int| 0 <= i < before.len() implies (targeted(cur, seq![it], i) <==> targeted(
                    before,
                    seq![it],
                    i,
                )) by {
                    lemma_first_with_id_same(before, cur, intent_target(it), i);
                    if targeted(cur, seq![it], i) {
                        let q = choose|q: int| 0 <= q < 1 && is_first_with_id(cur, intent_target(#[trigger] seq![it][q]), i);
                        assert(seq![it][q] == it);
                        assert(seq![it][0] == it);
                    }
                    if targeted(before, seq![it], i) {
                        let q = choose|q: int| 0 <= q < 1 && is_first_with_id(before, intent_target(#[trigger] seq![it][q]), i);
                        assert(seq![it][q] == it);
                        assert(seq![it][0] == it);
                    }
                }
                assert forall|i: int| 0 <= i < before.len() implies (targeted(before, intents@.take(k + 1), i) <==> (
                targeted(before, intents@.take(k as int), i) || targeted(before, seq![it], i))) by {
                    let t1 = intents@.take(k + 1);
                    let t0 = intents@.take(k as int);
                    if targeted(before, t1, i) {
                        let q = choose|q: int| 0 <= q < t1.len() && is_first_with_id(before, intent_target(#[trigger] t1[q]), i);
                        if q < k {
                            assert(t0[q] == t1[q]);
                        } else {
                            assert(seq![it][0] == it);
                        }
                    }
                    if targeted(before, t0, i) {
                        let q = choose|q: int| 0 <= q < t0.len() && is_first_with_id(before, intent_target(#[trigger] t0[q]), i);
                        assert(t0[q] == t1[q]);
                    }
                    if targeted(before, seq![it], i) {
                        let q = choose|q: int| 0 <= q < 1 && is_first_with_id(before, intent_target(#[trigger] seq![it][q]), i);
                        assert(seq![it][q] == it);
                        assert(t1[k as int] == it);
                    }
                }
            }
            k = k + 1;
        }
        assert(intents@.take(k as int) =~= intents@);
    }
}

/// Which window is the first with a given identifier depends on the identifiers alone.
proof fn lemma_first_with_id_same(a: Seq<WindowWidget>, b: Seq<WindowWidget>, id: usize, i: int)
    requires
        a.len() == b.len(),
        forall|j: int| 0 <= j < a.len() ==> (#[trigger] b[j]).id == a[j].id,
    ensures
        is_first_with_id(a, id, i) <==> is_first_with_id(b, id, i),
{
    if is_first_with_id(a, id, i) {
        assert forall|j: int| 0 <= j < i implies (#[trigger] b[j]).id != id by {
            assert(a[j].id != id);
        }
    }
    if is_first_with_id(b, id, i) {
        assert forall|j: int| 0 <= j < i implies (#[trigger] a[j]).id != id by {
            assert(b[j].id != id);
        }
    }
}

/// Releases a window's close button, keeping its well-formedness whatever it was.
fn release_window(w: &mut WindowWidget)
    ensures
        close_released(*old(w), *final(w)),
        final(w).window_body == old(w).window_body,
{
    w.window_top_bar.release_button();
}

/// What routing a pointer event does to the windows and the callback queue: nothing with no
/// window; above the top-bar line, the first window takes it; else the first window that
/// holds the pointer takes it, and a left press brings that window to the front.
pub open spec fn routed(
    before: Seq<WindowWidget>,
    after: Seq<WindowWidget>,
    pos: MousePosition,
    ev: MouseEvent,
    cbs_before: Seq<crate::mouse::MouseCallback>,
    cbs_after: Seq<crate::mouse::MouseCallback>,
) -> bool {
    if before.len() == 0 {
        after == before && cbs_after == cbs_before
    } else if pos.y_position < TOP_BAR_HEIGHT {
        &&& after.len() == before.len()
        &&& window_event(before[0], after[0], pos, ev, cbs_before, cbs_after)
        &&& forall|j: int| 0 < j < before.len() ==> #[trigger] after[j] == before[j]
    } else if exists|i: int| is_first_hit(before, pos, i) {
        let i = choose|i: int| is_first_hit(before, pos, i);
        if ev == MouseEvent::LMBDown {
            &&& after.len() == before.len()
            &&& window_event(before[i], after[0], pos, ev, cbs_before, cbs_after)
            &&& after.drop_first() == before.remove(i)
        } else {
            &&& after.len() == before.len()
            &&& window_event(before[i], after[i], pos, ev, cbs_before, cbs_after)
            &&& forall|j: int| 0 <= j < before.len() && j != i ==> #[trigger] after[j] == before[j]
        }
    } else {
        after == before && cbs_after == cbs_before
    }
}

/// Whether `after` is `before` with its close button released and its title bar marked
/// for redraw.
pub open spec fn close_released(before: WindowWidget, after: WindowWidget) -> bool {
    &&& !after.window_top_bar.button.pressed
    &&& after.window_top_bar.cache.needs_redraw
    &&& after.window_top_bar.cache.wf() == before.window_top_bar.cache.wf()
    &&& after.window_top_bar.title == before.window_top_bar.title
    &&& after.top_bar == before.top_bar
    &&& after.cache == before.cache
    &&& after.is_moving == before.is_moving
    &&& after.x_position == before.x_position
    &&& after.y_position == before.y_position
    &&& after.width == before.width
    &&& after.height == before.height
    &&& after.id == before.id
    &&& (before.wf() ==> after.wf())
}

/// Whether one of `intents` names window `i` of `ws` (the first window with its identifier).
pub open spec fn targeted(ws: Seq<WindowWidget>, intents: Seq<UiIntent>, i: int) -> bool {
    exists|k: int| 0 <= k < intents.len() && is_first_with_id(ws, intent_target(#[trigger] intents[k]), i)
}

/// The identifier of the window an intent names.
pub open spec fn intent_target(intent: UiIntent) -> usize {
    match intent {
        UiIntent::ReleaseCloseButton { window_id } => window_id,
    }
}

/// Of two windows that both hold the pointer, the one registered first takes the event,
/// whatever the order they are drawn in.
pub proof fn lemma_first_registered_wins(ws: Seq<WindowWidget>, pos: MousePosition)
    requires
        ws.len() >= 2,
        window_contains(ws[0], pos),
        window_contains(ws[1], pos),
    ensures
        is_first_hit(ws, pos, 0),
        !is_first_hit(ws, pos, 1),
{
}

/// The first window either rendered its top bar, or is as it was.
pub open spec fn window_rendered_or_same(before: WindowWidget, after: WindowWidget) -> bool {
    &&& after.window_top_bar == before.window_top_bar
    &&& after.cache == before.cache
    &&& after.is_moving == before.is_moving
    &&& after.x_position == before.x_position
    &&& after.y_position == before.y_position
    &&& after.width == before.width
    &&& after.height == before.height
    &&& after.id == before.id
}

} // verus!
