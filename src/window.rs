use vstd::prelude::*;
use crate::cache::RenderCache;
use crate::geometry::{Pixel, Color, WidgetBounds, blit, frame, paint_frame, draw_on_top_at, filled, advance};
use crate::mouse::{MouseCallback, MouseCallbackRegistrar, MouseEvent, MousePosition, UiIntent};
use crate::pixel_font::PixelFont;
use crate::text_widget::{TextWidget, white_px};
use crate::top_bar::{TopBarWidget, black_px};
use crate::widget::{RectWidget, TOP_BAR_HEIGHT, WidgetKind};

verus! {

/// The height of a window's title bar.
pub const WINDOW_TOP_BAR_HEIGHT: usize = 30;

/// Where the close button sits in the title bar, and its side.
pub const CLOSE_BUTTON_X: usize = 4;
pub const CLOSE_BUTTON_Y: usize = 7;
pub const CLOSE_BUTTON_SIZE: usize = 16;

/// Where the title text sits, from the top of the title bar.
pub const TITLE_Y: usize = 7;

pub open spec fn clear_black_px() -> Pixel {
    [0u8, 0u8, 0u8, 0u8]
}

pub open spec fn ghost_gray_px() -> Pixel {
    [128u8, 128u8, 128u8, 255u8]
}

/// The close button of a window's title bar.
pub struct WindowTopBarButton {
    pub pressed: bool,
}

impl WindowTopBarButton {
    /// Solid black while pressed; otherwise white with a black border.
    pub open spec fn picture(&self, w: nat, h: nat) -> Seq<Pixel> {
        if self.pressed {
            Seq::new(w * h, |i: int| black_px())
        } else {
            frame(w, h, white_px(), black_px(), false)
        }
    }

    pub fn render(&mut self, width: usize, height: usize) -> (r: Option<Vec<Pixel>>)
        requires
            width * height <= usize::MAX,
        ensures
            *final(self) == *old(self),
            r matches Some(b) && b@ == old(self).picture(width as nat, height as nat),
    {
        Some(self.draw(width, height))
    }

    pub fn draw(&self, width: usize, height: usize) -> (r: Vec<Pixel>)
        requires
            width * height <= usize::MAX,
        ensures
            r@ == self.picture(width as nat, height as nat),
    {
        if self.pressed {
            let b = filled([0u8, 0u8, 0u8, 255u8], width * height);
            assert(b@ =~= self.picture(width as nat, height as nat));
            b
        } else {
            paint_frame(width, height, [255u8, 255u8, 255u8, 255u8], [0u8, 0u8, 0u8, 255u8], false)
        }
    }

    pub fn get_min_bounds(&self) -> (r: WidgetBounds)
        ensures
            r.width == CLOSE_BUTTON_SIZE,
            r.height == CLOSE_BUTTON_SIZE,
    {
        WidgetBounds { width: CLOSE_BUTTON_SIZE, height: CLOSE_BUTTON_SIZE }
    }

    /// The button drawn at its own size.
    pub fn get_cache(&mut self) -> (r: Vec<Pixel>)
        ensures
            *final(self) == *old(self),
            r@ == old(self).picture(CLOSE_BUTTON_SIZE as nat, CLOSE_BUTTON_SIZE as nat),
    {
        self.draw(CLOSE_BUTTON_SIZE, CLOSE_BUTTON_SIZE)
    }

    /// A leaf: no children.
    pub fn get_children(&self) -> (r: Option<Vec<WidgetKind>>)
        ensures
            r is None,
    {
        None
    }

    /// A left press presses the button; it is released through a deferred callback.
    pub fn handle_mouse_event(
        &mut self,
        mouse_position: MousePosition,
        relative_mouse_position: MousePosition,
        mouse_event: MouseEvent,
        registrar: &mut MouseCallbackRegistrar,
    )
        ensures
            final(self).pressed == (old(self).pressed || mouse_event == MouseEvent::LMBDown),
            final(registrar).callbacks@ == old(registrar).callbacks@,
    {
        if mouse_event == MouseEvent::LMBDown {
            self.pressed = true;
        }
    }
}

/// Where the title starts: centred, or at the left edge where it is wider than the bar.
pub open spec fn title_x(w: int, tw: int) -> int {
    if w / 2 >= tw / 2 {
        w / 2 - tw / 2
    } else {
        0
    }
}

/// Whether the relative position falls strictly inside the close button.
pub open spec fn in_close_button(rel: MousePosition) -> bool {
    CLOSE_BUTTON_X < rel.x_position < CLOSE_BUTTON_X + CLOSE_BUTTON_SIZE && CLOSE_BUTTON_Y
        < rel.y_position < CLOSE_BUTTON_Y + CLOSE_BUTTON_SIZE
}

/// The title bar of a window: a bordered band with ticks, the close button and the title.
pub struct WindowTopBarWidget {
    pub button: WindowTopBarButton,
    pub title: TextWidget,
    pub cache: RenderCache,
}

impl WindowTopBarWidget {
    pub open spec fn wf(&self) -> bool {
        self.title.wf() && self.cache.wf()
    }

    pub open spec fn title_fits(&self) -> bool {
        self.title.min_width() * self.title.min_height() <= usize::MAX
    }

    /// The band, with the close button at `(4, 7)` and the title centred at height 7
    /// (left out where a buffer of its size would not fit in memory).
    pub open spec fn picture(&self, w: nat, h: nat) -> Seq<Pixel> {
        let band = blit(
            frame(w, h, white_px(), black_px(), true),
            w,
            h,
            CLOSE_BUTTON_X as int,
            CLOSE_BUTTON_Y as int,
            self.button.picture(CLOSE_BUTTON_SIZE as nat, CLOSE_BUTTON_SIZE as nat),
            CLOSE_BUTTON_SIZE as nat,
            CLOSE_BUTTON_SIZE as nat,
        );
        let tw = self.title.min_width();
        let th = self.title.min_height();
        if self.title_fits() {
            blit(band, w, h, title_x(w as int, tw), TITLE_Y as int, self.title.picture(tw as nat, th as nat), tw as nat, th as nat)
        } else {
            band
        }
    }

    pub open spec fn idle(&self, w: usize, h: usize) -> bool {
        self.cache.reusable(w, h)
    }

    /// A title bar with `title` in the built-in font, black on white.
    pub fn new(title: &str) -> (r: WindowTopBarWidget)
        ensures
            r.wf(),
            r.title.text@ == title@,
            !r.button.pressed,
            !r.cache.filled,
            r.cache.needs_redraw,
    {
        WindowTopBarWidget {
            title: TextWidget::new(Box::new(PixelFont::default()), false, title, Color::black(), Color::white()),
            button: WindowTopBarButton { pressed: false },
            cache: RenderCache::new(),
        }
    }

    /// The title bar at `width` x `height`, or `None` where the cache holds that very
    /// render and nothing changed since.
    pub fn render(&mut self, width: usize, height: usize) -> (r: Option<Vec<Pixel>>)
        requires
            old(self).wf(),
            width * height <= usize::MAX,
        ensures
            final(self).wf(),
            final(self).button == old(self).button,
            final(self).title == old(self).title,
            final(self).idle(width, height),
            r is None <==> old(self).idle(width, height),
            r is None ==> final(self).cache == old(self).cache,
            r matches Some(b) ==> b@ == old(self).picture(width as nat, height as nat)
                && final(self).cache.holds(b@, width, height),
    {
        if self.cache.can_reuse(width, height) {
            return None;
        }
        let band = paint_frame(width, height, [255u8, 255u8, 255u8, 255u8], [0u8, 0u8, 0u8, 255u8], true);
        let button = self.button.draw(CLOSE_BUTTON_SIZE, CLOSE_BUTTON_SIZE);
        let band = draw_on_top_at(
            CLOSE_BUTTON_X,
            CLOSE_BUTTON_Y,
            band,
            width,
            height,
            &button,
            CLOSE_BUTTON_SIZE,
            CLOSE_BUTTON_SIZE,
        );
        let tb = self.title.get_min_bounds();
        let out = match tb.width.checked_mul(tb.height) {
            Some(_) => {
                let title = self.title.draw(tb.width, tb.height);
                let x = if width / 2 >= tb.width / 2 {
                    width / 2 - tb.width / 2
                } else {
                    0
                };
                draw_on_top_at(x, TITLE_Y, band, width, height, &title, tb.width, tb.height)
            },
            None => band,
        };
        self.cache.store(&out, width, height);
        Some(out)
    }

    /// The last buffer rendered; empty before the first render.
    pub fn get_cache(&mut self) -> (r: Vec<Pixel>)
        ensures
            *final(self) == *old(self),
            r@ == old(self).cache.buffer@,
    {
        self.cache.contents()
    }

    /// The close button, then the title.
    pub fn get_children(&self) -> (r: Option<Vec<WidgetKind>>)
        ensures
            r matches Some(v) && v@ == seq![WidgetKind::WindowTopBarButton, WidgetKind::Text],
    {
        let mut v: Vec<WidgetKind> = Vec::new();
        v.push(WidgetKind::WindowTopBarButton);
        v.push(WidgetKind::Text);
        assert(v@ =~= seq![WidgetKind::WindowTopBarButton, WidgetKind::Text]);
        Some(v)
    }

    /// The size the bar needs: the title with room for the close button on either side,
    /// at the bar's fixed height.
    pub fn get_min_bounds(&self) -> (r: WidgetBounds)
        ensures
            r.width == crate::geometry::sat(self.title.min_width() + 2 * (CLOSE_BUTTON_X + CLOSE_BUTTON_SIZE)),
            r.height == WINDOW_TOP_BAR_HEIGHT,
    {
        let t = self.title.get_min_bounds();
        WidgetBounds {
            width: advance(t.width, CLOSE_BUTTON_X + CLOSE_BUTTON_SIZE, CLOSE_BUTTON_X + CLOSE_BUTTON_SIZE),
            height: WINDOW_TOP_BAR_HEIGHT,
        }
    }

    /// A pointer event at `relative_mouse_position` in the bar; one on the close button
    /// goes on to the button and marks the bar for redraw.
    pub fn handle_mouse_event(
        &mut self,
        mouse_position: MousePosition,
        relative_mouse_position: MousePosition,
        mouse_event: MouseEvent,
        registrar: &mut MouseCallbackRegistrar,
    )
        ensures
            final(registrar).callbacks@ == old(registrar).callbacks@,
            final(self).title == old(self).title,
            in_close_button(relative_mouse_position) ==> final(self).button.pressed == (old(self).button.pressed
                || mouse_event == MouseEvent::LMBDown) && final(self).cache.needs_redraw
                && final(self).cache.wf() == old(self).cache.wf(),
            !in_close_button(relative_mouse_position) ==> *final(self) == *old(self),
    {
        if CLOSE_BUTTON_X < relative_mouse_position.x_position && relative_mouse_position.x_position
            < CLOSE_BUTTON_X + CLOSE_BUTTON_SIZE && CLOSE_BUTTON_Y < relative_mouse_position.y_position
            && relative_mouse_position.y_position < CLOSE_BUTTON_Y + CLOSE_BUTTON_SIZE {
            let rel = MousePosition {
                x_position: relative_mouse_position.x_position - CLOSE_BUTTON_X,
                y_position: relative_mouse_position.y_position - CLOSE_BUTTON_Y,
            };
            self.cache.mark_dirty();
            self.button.handle_mouse_event(mouse_position, rel, mouse_event, registrar);
        }
    }

    /// Releases the close button and marks the bar for redraw.
    pub fn release_button(&mut self)
        ensures
            !final(self).button.pressed,
            final(self).cache.needs_redraw,
            final(self).title == old(self).title,
            final(self).cache.wf() == old(self).cache.wf(),
    {
        self.button.pressed = false;
        self.cache.mark_dirty();
    }
}

/// What a pointer event does to a window, by where it falls.
pub enum WindowRegion {
    /// Above the desktop's top-bar line: the window's own top bar.
    TopBar,
    /// The window's title bar, at the given relative position.
    TitleBar(MousePosition),
    /// The window's body, at the given relative position.
    Body(MousePosition),
    /// Not over this window.
    Outside,
}

/// A window: a title bar and a body, drawn as a whole or, while dragged, as a ghost.
pub struct WindowWidget {
    pub is_moving: bool,
    pub top_bar: TopBarWidget,
    pub window_top_bar: WindowTopBarWidget,
    pub window_body: RectWidget,
    pub x_position: usize,
    pub y_position: usize,
    pub width: usize,
    pub height: usize,
    pub id: usize,
    pub cache: RenderCache,
}

/// Where the absolute position `pos` falls for a window at `(x, y)`.
pub open spec fn region(x: usize, y: usize, pos: MousePosition) -> WindowRegion {
    if pos.y_position < TOP_BAR_HEIGHT {
        WindowRegion::TopBar
    } else if pos.x_position < x || pos.y_position < y {
        WindowRegion::Outside
    } else if pos.y_position < y + WINDOW_TOP_BAR_HEIGHT {
        WindowRegion::TitleBar(
            MousePosition { x_position: (pos.x_position - x) as usize, y_position: (pos.y_position - y) as usize },
        )
    } else {
        WindowRegion::Body(
            MousePosition {
                x_position: (pos.x_position - x) as usize,
                y_position: (pos.y_position - y - WINDOW_TOP_BAR_HEIGHT) as usize,
            },
        )
    }
}

impl WindowWidget {
    pub open spec fn wf(&self) -> bool {
        &&& self.top_bar.wf()
        &&& self.window_top_bar.wf()
        &&& self.cache.wf()
        &&& self.width * self.height <= usize::MAX
        &&& self.width * WINDOW_TOP_BAR_HEIGHT <= usize::MAX
    }

    /// Whether a `w` x `h` request is answered from the cache: the window's cache holds
    /// that size and its title bar has not changed.
    pub open spec fn idle(&self, w: usize, h: usize) -> bool {
        self.cache.reusable(w, h) && self.window_top_bar.idle(w, WINDOW_TOP_BAR_HEIGHT)
    }

    /// While moving, a gray ghost with a transparent border; otherwise black with the title
    /// bar (as last rendered at `w` x 30) along the top.
    pub open spec fn picture(&self, w: nat, h: nat) -> Seq<Pixel> {
        if self.is_moving {
            frame(w, h, ghost_gray_px(), clear_black_px(), false)
        } else {
            blit(
                Seq::new(w * h, |i: int| black_px()),
                w,
                h,
                0,
                0,
                self.window_top_bar.cache.buffer@,
                w,
                WINDOW_TOP_BAR_HEIGHT as nat,
            )
        }
    }

    /// A window of `width` x `height` at `(xpos, ypos)`, titled `title`, with an empty
    /// top bar and a plain body.
    pub fn new(title: &str, width: usize, height: usize, xpos: usize, ypos: usize) -> (r: WindowWidget)
        requires
            width * height <= usize::MAX,
            width * WINDOW_TOP_BAR_HEIGHT <= usize::MAX,
        ensures
            r.wf(),
            !r.is_moving,
            r.width == width,
            r.height == height,
            r.x_position == xpos,
            r.y_position == ypos,
            r.window_top_bar.title.text@ == title@,
            !r.window_top_bar.button.pressed,
            r.top_bar.buttons@.len() == 0,
            r.cache.needs_redraw,
    {
        WindowWidget {
            is_moving: false,
            top_bar: TopBarWidget::new(Vec::new()),
            window_top_bar: WindowTopBarWidget::new(title),
            window_body: RectWidget::new(width, height),
            width,
            height,
            x_position: xpos,
            y_position: ypos,
            id: 0,
            cache: RenderCache::new(),
        }
    }

    /// Sets the window's top bar (global menu).
    pub fn register_top_bar(&mut self, top_bar: TopBarWidget)
        requires
            old(self).wf(),
            top_bar.wf(),
        ensures
            final(self).wf(),
            final(self).top_bar == top_bar,
            final(self).window_top_bar == old(self).window_top_bar,
            final(self).cache == old(self).cache,
            final(self).is_moving == old(self).is_moving,
            final(self).x_position == old(self).x_position,
            final(self).y_position == old(self).y_position,
            final(self).width == old(self).width,
            final(self).height == old(self).height,
            final(self).id == old(self).id,
    {
        self.top_bar = top_bar;
    }

    /// The window's top bar at `width` x `height`, fresh or from its cache.
    pub fn render_top_bar(&mut self, width: usize, height: usize) -> (r: Vec<Pixel>)
        requires
            old(self).wf(),
            width * height <= usize::MAX,
        ensures
            final(self).wf(),
            final(self).top_bar.idle(width, height),
            final(self).top_bar.cache.holds(r@, width, height),
            final(self).window_top_bar == old(self).window_top_bar,
            final(self).cache == old(self).cache,
            final(self).is_moving == old(self).is_moving,
            final(self).x_position == old(self).x_position,
            final(self).y_position == old(self).y_position,
            final(self).width == old(self).width,
            final(self).height == old(self).height,
            final(self).id == old(self).id,
    {
        match self.top_bar.render(width, height) {
            Some(v) => v,
            None => self.top_bar.get_cache(),
        }
    }

    /// Switches between the ghost drawn while dragging and the normal drawing; either way
    /// the window is marked for redraw.
    pub fn set_moving(&mut self, new_status: bool)
        requires
            old(self).wf(),
        ensures
            final(self).wf(),
            final(self).is_moving == new_status,
            final(self).cache.needs_redraw,
            final(self).window_top_bar == old(self).window_top_bar,
            final(self).top_bar == old(self).top_bar,
            final(self).x_position == old(self).x_position,
            final(self).y_position == old(self).y_position,
            final(self).width == old(self).width,
            final(self).height == old(self).height,
            final(self).id == old(self).id,
    {
        self.is_moving = new_status;
        self.cache.mark_dirty();
    }

    /// The window's top bar, its title bar and its body.
    pub fn get_children(&self) -> (r: Option<Vec<WidgetKind>>)
        ensures
            r matches Some(v) && v@ == seq![WidgetKind::TopBar, WidgetKind::WindowTopBar, WidgetKind::Rect],
    {
        let mut v: Vec<WidgetKind> = Vec::new();
        v.push(WidgetKind::TopBar);
        v.push(WidgetKind::WindowTopBar);
        v.push(WidgetKind::Rect);
        assert(v@ =~= seq![WidgetKind::TopBar, WidgetKind::WindowTopBar, WidgetKind::Rect]);
        Some(v)
    }

    pub fn get_min_bounds(&self) -> (r: WidgetBounds)
        ensures
            r.width == self.width,
            r.height == self.height,
    {
        WidgetBounds { width: self.width, height: self.height }
    }

    /// The last buffer rendered; empty before the first render.
    pub fn get_cache(&mut self) -> (r: Vec<Pixel>)
        ensures
            *final(self) == *old(self),
            r@ == old(self).cache.buffer@,
    {
        self.cache.contents()
    }

    /// Renders the title bar (which decides for itself whether to reuse its cache), then the
    /// window, unless its cache holds this very size and the title bar did not change.
    pub fn render(&mut self, width: usize, height: usize) -> (r: Option<Vec<Pixel>>)
        requires
            old(self).wf(),
            width * height <= usize::MAX,
            width * WINDOW_TOP_BAR_HEIGHT <= usize::MAX,
        ensures
            final(self).wf(),
            final(self).idle(width, height),
            final(self).window_top_bar.button == old(self).window_top_bar.button,
            final(self).window_top_bar.title == old(self).window_top_bar.title,
            final(self).top_bar == old(self).top_bar,
            final(self).is_moving == old(self).is_moving,
            final(self).x_position == old(self).x_position,
            final(self).y_position == old(self).y_position,
            final(self).width == old(self).width,
            final(self).height == old(self).height,
            final(self).id == old(self).id,
            r is None <==> old(self).idle(width, height),
            r is None ==> final(self).cache == old(self).cache && final(self).window_top_bar.cache
                == old(self).window_top_bar.cache,
            r matches Some(b) ==> b@ == final(self).picture(width as nat, height as nat)
                && final(self).cache.holds(b@, width, height),
    {
        let topbar = self.window_top_bar.render(width, WINDOW_TOP_BAR_HEIGHT);
        if topbar.is_none() && self.cache.can_reuse(width, height) {
            return None;
        }
        let buf = if self.is_moving {
            paint_frame(width, height, [128u8, 128u8, 128u8, 255u8], [0u8, 0u8, 0u8, 0u8], false)
        } else {
            let bar = match topbar {
                Some(v) => v,
                None => self.window_top_bar.get_cache(),
            };
            let base = filled([0u8, 0u8, 0u8, 255u8], width * height);
            assert(base@ =~= Seq::new((width * height) as nat, |i: int| black_px()));
            draw_on_top_at(0, 0, base, width, height, &bar, width, WINDOW_TOP_BAR_HEIGHT)
        };
        self.cache.store(&buf, width, height);
        Some(buf)
    }

    /// Routes a pointer event by where it falls: to the window's top bar above the
    /// desktop's top-bar line, else to the title bar or the body, each at a position
    /// relative to itself. A press on the close button queues its release for the next
    /// left-button release.
    pub fn handle_mouse_event(
        &mut self,
        mouse_position: MousePosition,
        relative_mouse_position: MousePosition,
        mouse_event: MouseEvent,
        registrar: &mut MouseCallbackRegistrar,
    )
        ensures
            old(self).wf() ==> final(self).wf(),
            window_event(
                *old(self),
                *final(self),
                mouse_position,
                mouse_event,
                old(registrar).callbacks@,
                final(registrar).callbacks@,
            ),
    {
        let x = mouse_position.x_position;
        let y = mouse_position.y_position;
        if y < TOP_BAR_HEIGHT {
            self.top_bar.handle_mouse_event(mouse_position, mouse_position, mouse_event, registrar);
        } else if x < self.x_position || y < self.y_position {
        } else if y - self.y_position < WINDOW_TOP_BAR_HEIGHT {
            let rel = MousePosition { x_position: x - self.x_position, y_position: y - self.y_position };
            let hit = CLOSE_BUTTON_X < rel.x_position && rel.x_position < CLOSE_BUTTON_X + CLOSE_BUTTON_SIZE
                && CLOSE_BUTTON_Y < rel.y_position && rel.y_position < CLOSE_BUTTON_Y + CLOSE_BUTTON_SIZE;
            self.window_top_bar.handle_mouse_event(mouse_position, rel, mouse_event, registrar);
            if hit && mouse_event == MouseEvent::LMBDown {
                registrar.register(
                    MouseCallback {
                        until: MouseEvent::LMBUp,
                        intent: UiIntent::ReleaseCloseButton { window_id: self.id },
                    },
                );
            }
        } else {
            let rel = MousePosition {
                x_position: x - self.x_position,
                y_position: y - self.y_position - WINDOW_TOP_BAR_HEIGHT,
            };
            self.window_body.handle_mouse_event(mouse_position, rel, mouse_event, registrar);
        }
    }

    /// Releases the close button, as its deferred callback asks.
    pub fn release_close_button(&mut self)
        requires
            old(self).wf(),
        ensures
            final(self).wf(),
            !final(self).window_top_bar.button.pressed,
            final(self).window_top_bar.cache.needs_redraw,
            final(self).window_top_bar.title == old(self).window_top_bar.title,
            final(self).top_bar == old(self).top_bar,
            final(self).cache == old(self).cache,
            final(self).is_moving == old(self).is_moving,
            final(self).x_position == old(self).x_position,
            final(self).y_position == old(self).y_position,
            final(self).width == old(self).width,
            final(self).height == old(self).height,
            final(self).id == old(self).id,
    {
        self.window_top_bar.release_button();
    }
}

/// What a pointer event at `pos` does to a window and to the callback queue.
pub open spec fn window_event(
    before: WindowWidget,
    after: WindowWidget,
    pos: MousePosition,
    ev: MouseEvent,
    cbs_before: Seq<MouseCallback>,
    cbs_after: Seq<MouseCallback>,
) -> bool {
    &&& after.top_bar == before.top_bar
    &&& after.window_body == before.window_body
    &&& after.window_top_bar.title == before.window_top_bar.title
    &&& after.cache == before.cache
    &&& after.is_moving == before.is_moving
    &&& after.x_position == before.x_position
    &&& after.y_position == before.y_position
    &&& after.width == before.width
    &&& after.height == before.height
    &&& after.id == before.id
    &&& match region(before.x_position, before.y_position, pos) {
        WindowRegion::TitleBar(rel) => if in_close_button(rel) {
            &&& after.window_top_bar.button.pressed == (before.window_top_bar.button.pressed || ev
                == MouseEvent::LMBDown)
            &&& after.window_top_bar.cache.needs_redraw
            &&& after.window_top_bar.cache.wf() == before.window_top_bar.cache.wf()
            &&& cbs_after == if ev == MouseEvent::LMBDown {
                cbs_before.push(
                    MouseCallback {
                        until: MouseEvent::LMBUp,
                        intent: UiIntent::ReleaseCloseButton { window_id: before.id },
                    },
                )
            } else {
                cbs_before
            }
        } else {
            after.window_top_bar == before.window_top_bar && cbs_after == cbs_before
        },
        _ => after.window_top_bar == before.window_top_bar && cbs_after == cbs_before,
    }
}

/// A window whose last render of `w` x `h` gave `b`, and whose title bar has not changed
/// since, answers the same request from its cache, and that cache is `b`.
pub proof fn lemma_window_reuse(win: WindowWidget, b: Seq<Pixel>, w: usize, h: usize)
    requires
        win.cache.holds(b, w, h),
        win.window_top_bar.idle(w, WINDOW_TOP_BAR_HEIGHT),
    ensures
        win.idle(w, h),
        win.cache.buffer@ == b,
{
}

/// A window that answers one size from its cache answers no other size from it.
pub proof fn lemma_window_resize(win: WindowWidget, w: usize, h: usize, w2: usize, h2: usize)
    requires
        win.idle(w, h),
        w2 != w || h2 != h,
    ensures
        !win.idle(w2, h2),
{
}

/// A window marked for redraw answers no render request from its cache.
pub proof fn lemma_moving_forces_render(win: WindowWidget, w: usize, h: usize)
    requires
        win.cache.needs_redraw,
    ensures
        !win.idle(w, h),
{
}

} // verus!
