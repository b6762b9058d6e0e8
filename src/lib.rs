use vstd::prelude::*;

pub mod geometry;
pub mod pixel_font;
pub mod cache;
pub mod text_widget;
pub mod top_bar;
pub mod mouse;
pub mod window;
pub mod widget;

verus! {

} // verus!
