//! A row-major raster of colors, used both for environment-map faces and as
//! a frame sink.

use vstd::prelude::*;

use crate::geom::Color;

verus! {

/// A `w` by `h` raster of colors stored row-major.
pub struct Image {
    buf: Vec<Color>,
    w: usize,
    h: usize,
}

/// Pixels lie within `0 <= x < w`, `0 <= y < h`, at offset `x + w * y`.
proof fn lemma_offset_in(w: int, h: int, x: int, y: int)
    by (nonlinear_arith)
    requires
        0 <= x < w,
        0 <= y < h,
    ensures
        0 <= x + w * y,
        x + w * y < w * h,
        0 <= w * y <= w * h,
{
}

/// Distinct pixel coordinates have distinct offsets.
proof fn lemma_offset_inj(w: int, x: int, y: int, x2: int, y2: int)
    by (nonlinear_arith)
    requires
        0 <= x < w,
        0 <= x2 < w,
        0 <= y,
        0 <= y2,
        !(x == x2 && y == y2),
    ensures
        x + w * y != x2 + w * y2,
{
}

impl Image {
    /// The backing store covers exactly the raster.
    pub closed spec fn wf(self) -> bool {
        self.buf@.len() == self.w * self.h
    }

    pub closed spec fn spec_width(self) -> usize {
        self.w
    }

    pub closed spec fn spec_height(self) -> usize {
        self.h
    }

    /// The color of the pixel at `(x, y)`.
    pub closed spec fn px(self, x: int, y: int) -> Color {
        self.buf@[x + self.w * y]
    }

    /// A raster of the given dimensions, all pixels transparent black.
    pub fn new(w: usize, h: usize) -> (r: Image)
        requires
            w * h <= usize::MAX,
        ensures
            r.wf(),
            r.spec_width() == w,
            r.spec_height() == h,
            forall|x: int, y: int|
                0 <= x < w && 0 <= y < h ==> #[trigger] r.px(x, y) == (Color(0, 0, 0, 0)),
    {
        let n: usize = w * h;
        let mut buf: Vec<Color> = Vec::new();
        let mut i: usize = 0;
        while i < n
            invariant
                i <= n,
                buf@.len() == i,
                forall|k: int| 0 <= k < i ==> #[trigger] buf@[k] == (Color(0, 0, 0, 0)),
            decreases n - i,
        {
            buf.push(Color(0, 0, 0, 0));
            i += 1;
        }
        let img = Image { buf, w, h };
        proof {
            assert forall|x: int, y: int| 0 <= x < w && 0 <= y < h implies #[trigger] img.px(x, y)
                == (Color(0, 0, 0, 0)) by {
                lemma_offset_in(w as int, h as int, x, y);
            }
        }
        img
    }

    pub fn width(&self) -> (r: usize)
        ensures
            r == self.spec_width(),
    {
        self.w
    }

    pub fn height(&self) -> (r: usize)
        ensures
            r == self.spec_height(),
    {
        self.h
    }

    fn coords2offset(&self, x: usize, y: usize) -> (r: usize)
        requires
            self.wf(),
            x < self.spec_width(),
            y < self.spec_height(),
        ensures
            r == x + self.spec_width() * y,
            r < self.buf@.len(),
    {
        let total: usize = self.buf.len();
        proof {
            lemma_offset_in(self.w as int, self.h as int, x as int, y as int);
        }
        x + self.w * y
    }

    /// Read the pixel at `(x, y)`.
    pub fn load_px(&self, x: usize, y: usize) -> (r: Color)
        requires
            self.wf(),
            x < self.spec_width(),
            y < self.spec_height(),
        ensures
            r == self.px(x as int, y as int),
    {
        let i = self.coords2offset(x, y);
        self.buf[i]
    }

    /// Write the pixel at `(x, y)`; every other pixel keeps its color.
    pub fn store_px(&mut self, x: usize, y: usize, c: Color)
        requires
            old(self).wf(),
            x < old(self).spec_width(),
            y < old(self).spec_height(),
        ensures
            final(self).wf(),
            final(self).spec_width() == old(self).spec_width(),
            final(self).spec_height() == old(self).spec_height(),
            final(self).px(x as int, y as int) == c,
            forall|a: int, b: int|
                0 <= a < old(self).spec_width() && 0 <= b < old(self).spec_height() && !(a == x
                    && b == y) ==> #[trigger] final(self).px(a, b) == old(self).px(a, b),
    {
        let i = self.coords2offset(x, y);
        self.buf.set(i, c);
        proof {
            lemma_offset_in(self.w as int, self.h as int, x as int, y as int);
            assert forall|a: int, b: int|
                0 <= a < old(self).spec_width() && 0 <= b < old(self).spec_height() && !(a == x
                    && b == y) implies #[trigger] self.px(a, b) == old(self).px(a, b) by {
                lemma_offset_in(self.w as int, self.h as int, a, b);
                lemma_offset_inj(self.w as int, x as int, y as int, a, b);
            }
        }
    }
}

} // verus!
