use vstd::prelude::*;
use crate::geometry::{Pixel, copy_pixels};

verus! {

/// The last buffer a widget rendered, the size it was rendered at, and whether the
/// widget has changed since.
pub struct RenderCache {
    pub buffer: Vec<Pixel>,
    pub width: usize,
    pub height: usize,
    pub filled: bool,
    pub needs_redraw: bool,
}

impl RenderCache {
    /// A filled cache holds a buffer of exactly its recorded size.
    pub open spec fn wf(&self) -> bool {
        self.filled ==> self.buffer@.len() == self.width * self.height
    }

    /// Whether a render request of `w` x `h` may be answered from the cache.
    pub open spec fn reusable(&self, w: usize, h: usize) -> bool {
        !self.needs_redraw && self.filled && self.width == w && self.height == h
    }

    /// Whether the cache holds `b`, rendered at `w` x `h`, with nothing changed since.
    pub open spec fn holds(&self, b: Seq<Pixel>, w: usize, h: usize) -> bool {
        self.filled && !self.needs_redraw && self.buffer@ == b && self.width == w && self.height == h
    }

    /// An empty cache, which no request can reuse.
    pub fn new() -> (r: RenderCache)
        ensures
            r.wf(),
            !r.filled,
            r.needs_redraw,
            r.buffer@.len() == 0,
    {
        RenderCache { buffer: Vec::new(), width: 0, height: 0, filled: false, needs_redraw: true }
    }

    pub fn can_reuse(&self, w: usize, h: usize) -> (r: bool)
        ensures
            r == self.reusable(w, h),
    {
        !self.needs_redraw && self.filled && self.width == w && self.height == h
    }

    /// Records `buf` as the render for `w` x `h` and clears the redraw flag.
    pub fn store(&mut self, buf: &Vec<Pixel>, w: usize, h: usize)
        requires
            buf@.len() == w * h,
        ensures
            final(self).wf(),
            final(self).holds(buf@, w, h),
    {
        self.buffer = copy_pixels(buf);
        self.width = w;
        self.height = h;
        self.filled = true;
        self.needs_redraw = false;
    }

    /// Forces the next render request to recompute.
    pub fn mark_dirty(&mut self)
        ensures
            final(self).needs_redraw,
            final(self).filled == old(self).filled,
            final(self).buffer@ == old(self).buffer@,
            final(self).width == old(self).width,
            final(self).height == old(self).height,
    {
        self.needs_redraw = true;
    }

    /// A copy of the cached buffer.
    pub fn contents(&self) -> (r: Vec<Pixel>)
        ensures
            r@ == self.buffer@,
    {
        copy_pixels(&self.buffer)
    }
}

/// A cache that has just stored a render answers the same request again, with that
/// same buffer.
pub proof fn lemma_cache_reuse(c: RenderCache, b: Seq<Pixel>, w: usize, h: usize)
    requires
        c.holds(b, w, h),
    ensures
        c.reusable(w, h),
        c.buffer@ == b,
{
}

/// A cache never answers a request of another size than the one it stored.
pub proof fn lemma_cache_resize(c: RenderCache, w: usize, h: usize, w2: usize, h2: usize)
    requires
        c.reusable(w, h),
        w2 != w || h2 != h,
    ensures
        !c.reusable(w2, h2),
{
}

/// A cache marked for redraw answers no request.
pub proof fn lemma_cache_dirty(c: RenderCache, w: usize, h: usize)
    requires
        c.needs_redraw,
    ensures
        !c.reusable(w, h),
{
}

} // verus!
