use desktop_minifb::geometry::Color;
use desktop_minifb::mouse::{
    MouseCallback, MouseCallbackRegistrar, MouseEvent, MousePosition, MouseQueueResult, UiIntent,
};
use desktop_minifb::pixel_font::{FontPixel, PixelFont, PixelFontChar};
use desktop_minifb::text_widget::TextWidget;
use desktop_minifb::top_bar::{TopBarButton, TopBarWidget};
use desktop_minifb::widget::{MainWidget, RectWidget, WidgetKind};
use desktop_minifb::window::{WindowTopBarButton, WindowTopBarWidget, WindowWidget};

const BLACK: [u8; 4] = [0, 0, 0, 255];
const WHITE: [u8; 4] = [255, 255, 255, 255];
const RED: [u8; 4] = [255, 0, 0, 255];

fn glyph(width: usize, height: usize, gap: usize, alpha: u8) -> PixelFontChar {
    PixelFontChar::new(width, height, gap, vec![FontPixel { alpha }; width * height]).unwrap()
}

fn two_glyph_font() -> PixelFont {
    PixelFont::new(12, vec![('a', glyph(8, 16, 1, 1)), ('b', glyph(6, 16, 0, 1))])
}

fn pos(x: usize, y: usize) -> MousePosition {
    MousePosition { x_position: x, y_position: y }
}

#[test]
fn glyph_rejects_wrong_cell_count() {
    assert!(PixelFontChar::new(2, 2, 1, vec![FontPixel { alpha: 1 }; 3]).is_none());
    assert!(PixelFontChar::new(2, 2, 1, vec![FontPixel { alpha: 1 }; 4]).is_some());
    assert!(PixelFontChar::new(5, 0, 1, vec![]).is_some());
}

#[test]
fn default_font_has_its_glyphs() {
    let f = PixelFont::default();
    assert_eq!(f.size_in_pts, 12);
    let b = f.get('B').unwrap();
    assert_eq!((b.width, b.height, b.right_offset), (8, 16, 1));
    let d = f.get('d').unwrap();
    assert_eq!((d.width, d.right_offset), (7, 0));
    assert!(f.get('Z').is_none());
}

#[test]
fn text_advance_sums_widths_and_gaps() {
    let mut t = TextWidget::new(Box::new(two_glyph_font()), false, "ab", Color::black(), Color::white());
    let b = t.get_min_bounds();
    assert_eq!(b.width, 15);
    assert_eq!(b.height, 16);
    let buf = t.render(15, 16).unwrap();
    assert_eq!(buf.len(), 15 * 16);
    assert!(buf.iter().all(|p| *p != RED));
    // 'a' covers columns 0..8, a white gap at 8, 'b' covers 9..15
    assert_eq!(buf[0], BLACK);
    assert_eq!(buf[7], BLACK);
    assert_eq!(buf[8], WHITE);
    assert_eq!(buf[9], BLACK);
    assert_eq!(buf[14], BLACK);
}

#[test]
fn text_unknown_char_is_blank_of_nine() {
    let mut t = TextWidget::new(Box::new(two_glyph_font()), false, "?a", Color::black(), Color::white());
    let b = t.get_min_bounds();
    assert_eq!((b.width, b.height), (18, 16));
    let buf = t.render(18, 16).unwrap();
    assert_eq!(buf[0], [0, 0, 0, 0]);
    assert_eq!(buf[8], WHITE);
    assert_eq!(buf[9], BLACK);
    assert_eq!(t.get_cache(), buf);
}

#[test]
fn text_too_wide_for_buffer_floods_red() {
    let mut t = TextWidget::new(Box::new(two_glyph_font()), false, "ab", Color::black(), Color::white());
    let buf = t.render(10, 16).unwrap();
    assert!(buf.iter().all(|p| *p == RED));
}

#[test]
fn empty_text_is_white_and_zero_sized() {
    let mut t = TextWidget::new(Box::new(two_glyph_font()), false, "", Color::black(), Color::white());
    let b = t.get_min_bounds();
    assert_eq!((b.width, b.height), (0, 0));
    assert_eq!(t.render(2, 1).unwrap(), vec![WHITE; 2]);
    assert!(t.get_children().is_none());
}

#[test]
fn rect_is_mid_gray() {
    let mut r = RectWidget::new(3, 2);
    assert_eq!(r.render(2, 2).unwrap(), vec![[128u8; 4]; 4]);
    assert_eq!(r.get_cache(), vec![[128u8; 4]; 6]);
    let b = r.get_min_bounds();
    assert_eq!((b.width, b.height), (3, 2));
}

#[test]
fn close_button_pictures() {
    let mut b = WindowTopBarButton { pressed: false };
    let buf = b.render(4, 4).unwrap();
    assert_eq!(buf[0], BLACK);
    assert_eq!(buf[5], WHITE);
    assert_eq!(buf[15], BLACK);
    let mut reg = MouseCallbackRegistrar::new();
    b.handle_mouse_event(pos(0, 0), pos(0, 0), MouseEvent::LMBDown, &mut reg);
    assert!(b.pressed);
    assert_eq!(b.render(4, 4).unwrap(), vec![BLACK; 16]);
    assert_eq!(b.get_cache().len(), 256);
}

#[test]
fn button_reuses_cache_until_size_changes() {
    let mut b = TopBarButton::new("Bu", vec![]);
    let bounds = b.get_min_bounds();
    assert_eq!((bounds.width, bounds.height), (18, 16));
    let first = b.render(18, 16).unwrap();
    assert!(b.render(18, 16).is_none());
    assert_eq!(b.get_cache(), first);
    assert!(b.render(20, 16).is_some());
}

#[test]
fn button_menu_box_bounds() {
    let mut b = TopBarButton::new("B", vec!["Bu", "BuB"]);
    assert_eq!(b.get_max_action_box_width(), 27);
    assert_eq!(b.get_max_action_box_height(), 32);
    b.toggle();
    let bounds = b.get_min_bounds();
    assert_eq!((bounds.width, bounds.height), (27, 32));
    assert_eq!(b.get_children().unwrap().len(), 3);
}

#[test]
fn top_bar_layout_and_rule() {
    let mut bar = TopBarWidget::new(vec![TopBarButton::new("B", vec![]), TopBarButton::new("u", vec![])]);
    let mb = bar.get_min_bounds();
    assert_eq!(mb.width, 10 + 9 + 20 + 9 + 20);
    assert_eq!(mb.height, 16 + 8);
    let buf = bar.render(80, 30).unwrap();
    assert_eq!(buf.len(), 80 * 30);
    assert!(buf[29 * 80..].iter().all(|p| *p == BLACK));
    assert_eq!(buf[0], WHITE);
    // first button starts at (10, 7); second at (10 + 9 + 20, 7)
    assert_eq!(buf[7 * 80 + 10], BLACK);
    assert_eq!(buf[7 * 80 + 9], WHITE);
    assert!(bar.render(80, 30).is_none());
    assert_eq!(bar.get_cache(), buf);
    assert!(bar.render(81, 30).is_some());
    assert_eq!(bar.get_children().unwrap(), vec![WidgetKind::TopBarButton; 2]);
}

#[test]
fn title_bar_cache_reuse_and_resize() {
    let mut t = WindowTopBarWidget::new("Bu");
    let first = t.render(100, 30).unwrap();
    assert_eq!(first.len(), 3000);
    assert_eq!(first[0], BLACK);
    // close button's top-left corner at (4, 7)
    assert_eq!(first[7 * 100 + 4], BLACK);
    assert_eq!(first[8 * 100 + 5], WHITE);
    assert!(t.render(100, 30).is_none());
    assert_eq!(t.get_cache(), first);
    assert!(t.render(100, 31).is_some());
    let b = t.get_min_bounds();
    assert_eq!((b.width, b.height), (18 + 40, 30));
}

#[test]
fn title_bar_press_marks_dirty() {
    let mut t = WindowTopBarWidget::new("T");
    t.render(60, 30).unwrap();
    let mut reg = MouseCallbackRegistrar::new();
    t.handle_mouse_event(pos(0, 0), pos(10, 10), MouseEvent::LMBDown, &mut reg);
    assert!(t.button.pressed);
    let again = t.render(60, 30).unwrap();
    assert_eq!(again[8 * 60 + 5], BLACK);
    t.handle_mouse_event(pos(0, 0), pos(30, 10), MouseEvent::LMBDown, &mut reg);
    assert!(t.render(60, 30).is_none());
}

#[test]
fn window_cache_reuse_and_moving() {
    let mut w = WindowWidget::new("T", 60, 40, 5, 50);
    let first = w.render(60, 40).unwrap();
    assert_eq!(first.len(), 2400);
    assert_eq!(first[39 * 60], BLACK);
    assert!(w.render(60, 40).is_none());
    assert_eq!(w.get_cache(), first);
    assert!(w.render(61, 40).is_some());
    assert!(w.render(61, 40).is_none());
    w.set_moving(true);
    let ghost = w.render(61, 40).unwrap();
    assert_eq!(ghost[0], [0, 0, 0, 0]);
    assert_eq!(ghost[62], [128, 128, 128, 255]);
    w.set_moving(false);
    assert!(w.render(61, 40).is_some());
}

#[test]
fn window_too_short_for_title_bar_is_red() {
    let mut w = WindowWidget::new("T", 20, 10, 0, 40);
    let buf = w.render(20, 10).unwrap();
    assert!(buf.iter().all(|p| *p == RED));
}

#[test]
fn registrar_drains_the_middle_callback() {
    let mut reg = MouseCallbackRegistrar::new();
    let a = MouseCallback { until: MouseEvent::RMBUp, intent: UiIntent::ReleaseCloseButton { window_id: 1 } };
    let b = MouseCallback { until: MouseEvent::LMBUp, intent: UiIntent::ReleaseCloseButton { window_id: 2 } };
    let c = MouseCallback { until: MouseEvent::ScrollUp, intent: UiIntent::ReleaseCloseButton { window_id: 3 } };
    reg.register(a);
    reg.register(b);
    reg.register(c);
    assert_eq!(b.call(pos(0, 0), MouseEvent::LMBUp), MouseQueueResult::DiscardMe);
    assert_eq!(a.call(pos(0, 0), MouseEvent::LMBUp), MouseQueueResult::KeepMe);
    let fired = reg.drain(pos(3, 4), MouseEvent::LMBUp);
    assert_eq!(reg.callbacks, vec![a, c]);
    assert_eq!(fired, vec![UiIntent::ReleaseCloseButton { window_id: 2 }]);
    let none = reg.drain(pos(3, 4), MouseEvent::LMBDown);
    assert!(none.is_empty());
    assert_eq!(reg.callbacks.len(), 2);
}

fn desktop_with_two_windows() -> MainWidget {
    let mut m = MainWidget::new(200, 150);
    let mut a = WindowWidget::new("A", 100, 80, 20, 40);
    a.register_top_bar(TopBarWidget::new(vec![TopBarButton::new("B", vec![])]));
    m.reg_window(a);
    m.reg_window(WindowWidget::new("B", 100, 80, 50, 60));
    m
}

#[test]
fn first_registered_window_takes_the_hit() {
    let m = desktop_with_two_windows();
    assert_eq!(m.windows[0].id, 0);
    assert_eq!(m.windows[1].id, 1);
    assert_eq!(m.hit_window(pos(60, 70)), Some(0));
    assert_eq!(m.hit_window(pos(140, 130)), Some(1));
    assert_eq!(m.hit_window(pos(5, 5)), None);
    // edges are outside
    assert_eq!(m.hit_window(pos(20, 50)), None);
}

#[test]
fn close_button_press_and_release_through_callbacks() {
    let mut m = desktop_with_two_windows();
    let mut reg = MouseCallbackRegistrar::new();
    // window A sits at (20, 40); its close button spans (24..40, 47..63)
    m.handle_mouse_event(pos(30, 50), MouseEvent::LMBDown, &mut reg);
    assert!(m.windows[0].window_top_bar.button.pressed);
    assert!(!m.windows[1].window_top_bar.button.pressed);
    assert_eq!(reg.callbacks.len(), 1);
    m.process_callbacks(pos(30, 50), MouseEvent::LMBDown, &mut reg);
    assert!(m.windows[0].window_top_bar.button.pressed);
    m.process_callbacks(pos(30, 50), MouseEvent::LMBUp, &mut reg);
    assert!(!m.windows[0].window_top_bar.button.pressed);
    assert!(reg.callbacks.is_empty());
}

#[test]
fn press_brings_window_to_front() {
    let mut m = desktop_with_two_windows();
    let mut reg = MouseCallbackRegistrar::new();
    m.handle_mouse_event(pos(140, 130), MouseEvent::LMBDown, &mut reg);
    assert_eq!(m.windows[0].id, 1);
    assert_eq!(m.windows[1].id, 0);
    m.handle_mouse_event(pos(60, 70), MouseEvent::LMBUp, &mut reg);
    assert_eq!(m.windows[0].id, 1);
}

#[test]
fn desktop_render_draws_windows_back_to_front() {
    let mut m = desktop_with_two_windows();
    let buf = m.render(200, 150);
    assert_eq!(buf.len(), 200 * 150);
    // the top bar of window 0 along the top, its bottom line at row 29
    assert_eq!(buf[29 * 200 + 100], BLACK);
    assert_eq!(buf[100 * 200 + 5], [128u8; 4]);
    // window A (drawn last) covers the overlap: its title bar's top border at (60, 40)
    assert_eq!(buf[40 * 200 + 60], BLACK);
    // overlap at (70, 75) belongs to A's black body
    assert_eq!(buf[75 * 200 + 70], BLACK);
    // B alone at (140, 100): black body
    assert_eq!(buf[100 * 200 + 140], BLACK);
    assert_eq!(m.get_children().unwrap(), vec![WidgetKind::Window; 2]);
}

#[test]
fn empty_desktop_is_white() {
    let mut m = MainWidget::new(4, 3);
    assert_eq!(m.render(4, 3), vec![[255u8; 4]; 12]);
    let mut reg = MouseCallbackRegistrar::new();
    m.handle_mouse_event(pos(1, 1), MouseEvent::LMBDown, &mut reg);
    assert!(reg.callbacks.is_empty());
}
