use desktop_minifb::geometry::{
    compute_col_u32_alpha, compute_col_u32_no_alpha, draw_on_top_at, from_font_to_pixbuf, Color,
};
use desktop_minifb::pixel_font::FontPixel;

const RED: [u8; 4] = [255, 0, 0, 255];

fn numbered(n: usize) -> Vec<[u8; 4]> {
    (0..n).map(|i| [i as u8, 0, 0, 255]).collect()
}

#[test]
fn blit_copies_into_place() {
    let base = vec![[9u8, 9, 9, 9]; 4 * 3];
    let top = numbered(2 * 2);
    let out = draw_on_top_at(1, 1, base, 4, 3, &top, 2, 2);
    assert_eq!(out.len(), 12);
    assert_eq!(out[0], [9, 9, 9, 9]);
    assert_eq!(out[5], top[0]);
    assert_eq!(out[6], top[1]);
    assert_eq!(out[9], top[2]);
    assert_eq!(out[10], top[3]);
    assert_eq!(out[7], [9, 9, 9, 9]);
    assert_eq!(out[11], [9, 9, 9, 9]);
}

#[test]
fn blit_overflow_in_x_floods_red() {
    let base = vec![[1u8, 2, 3, 4]; 5 * 4];
    let top = numbered(3 * 2);
    let out = draw_on_top_at(3, 0, base, 5, 4, &top, 3, 2);
    assert_eq!(out.len(), 20);
    assert!(out.iter().all(|p| *p == RED));
}

#[test]
fn blit_overflow_in_y_floods_red() {
    let base = vec![[1u8, 2, 3, 4]; 5 * 4];
    let top = numbered(2 * 3);
    let out = draw_on_top_at(0, 2, base, 5, 4, &top, 2, 3);
    assert_eq!(out.len(), 20);
    assert!(out.iter().all(|p| *p == RED));
}

#[test]
fn blit_huge_offset_does_not_wrap() {
    let base = vec![[1u8, 2, 3, 4]; 3 * 3];
    let top = numbered(2 * 2);
    let out = draw_on_top_at(usize::MAX, usize::MAX, base, 3, 3, &top, 2, 2);
    assert_eq!(out.len(), 9);
    assert!(out.iter().all(|p| *p == RED));
}

#[test]
fn blit_identity_at_origin() {
    let base = vec![[7u8, 7, 7, 7]; 3 * 2];
    let top = numbered(3 * 2);
    let out = draw_on_top_at(0, 0, base, 3, 2, &top, 3, 2);
    assert_eq!(out, top);
}

#[test]
fn blit_empty_top_keeps_base() {
    let base = numbered(6);
    let out = draw_on_top_at(3, 2, base.clone(), 3, 2, &vec![], 0, 0);
    assert_eq!(out, base);
}

#[test]
fn colorize_zero_coverage_is_background() {
    let fg = Color::black();
    let bg = Color::white();
    let cells = vec![FontPixel { alpha: 0 }; 3];
    let out = from_font_to_pixbuf(fg, bg, &cells);
    assert_eq!(out, vec![[255u8, 255, 255, 255]; 3]);
}

#[test]
fn colorize_full_coverage_is_foreground_when_channels_differ_by_128() {
    let fg = Color { r: 0, g: 128, b: 40 };
    let bg = Color { r: 128, g: 0, b: 40 };
    let out = from_font_to_pixbuf(fg, bg, &vec![FontPixel { alpha: 255 }]);
    assert_eq!(out, vec![[0u8, 128, 40, 255]]);
}

#[test]
fn colorize_full_coverage_wraps_to_eight_bits() {
    let out = from_font_to_pixbuf(Color::black(), Color::white(), &vec![FontPixel { alpha: 255 }]);
    assert_eq!(out, vec![[254u8, 254, 254, 255]]);
}

#[test]
fn colorize_unit_coverage_is_foreground() {
    let fg = Color { r: 10, g: 200, b: 0 };
    let bg = Color { r: 250, g: 3, b: 77 };
    let out = from_font_to_pixbuf(fg, bg, &vec![FontPixel { alpha: 1 }]);
    assert_eq!(out, vec![[10u8, 200, 0, 255]]);
}

#[test]
fn colorize_mid_coverage_exact() {
    let fg = Color { r: 10, g: 0, b: 0 };
    let bg = Color { r: 0, g: 0, b: 0 };
    let out = from_font_to_pixbuf(fg, bg, &vec![FontPixel { alpha: 30 }]);
    // 10 * 30 = 300, truncated to 8 bits: 44
    assert_eq!(out, vec![[44u8, 0, 0, 255]]);
}

#[test]
fn pack_argb_with_alpha() {
    assert_eq!(compute_col_u32_alpha(&[0x11, 0x22, 0x33, 0x44]), 0x44112233);
    assert_eq!(compute_col_u32_alpha(&[255, 0, 0, 255]), 0xFFFF0000);
}

#[test]
fn pack_argb_without_alpha() {
    assert_eq!(compute_col_u32_no_alpha(&[0x11, 0x22, 0x33]), 0xFF112233);
    assert_eq!(compute_col_u32_no_alpha(&[0, 0, 0]), 0xFF000000);
}

#[test]
fn named_colours() {
    assert_eq!(Color::black(), Color { r: 0, g: 0, b: 0 });
    assert_eq!(Color::white(), Color { r: 255, g: 255, b: 255 });
}
