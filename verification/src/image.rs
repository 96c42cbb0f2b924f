//! The output image: a dense row-major buffer of colors.
//!
//! Pixels are stored row-major, `width * height` entries, and row `0` is the
//! bottom scanline — a consumer that wants top-to-bottom order flips rows at
//! the boundary.

use vstd::prelude::*;
use vstd::pervasive::VecAdditionalExecFns;
use crate::color::Color;

verus! {

/// A dense row-major color buffer; row `0` is the bottom scanline.
pub struct Image {
    pub data: Vec<Color>,
    pub width: usize,
    pub height: usize,
}

/// Well-formedness: the buffer holds exactly `width * height` colors.
pub open spec fn image_wf(img: Image) -> bool {
    img.data@.len() == img.width * img.height
}

proof fn lemma_index_in_bounds(x: int, y: int, width: int, height: int)
    requires
        0 <= x < width,
        0 <= y < height,
    ensures
        0 <= y * width + x < width * height,
{
    assert(y * width + x < width * height) by (nonlinear_arith)
        requires
            0 <= x < width,
            0 <= y < height,
    ;
    assert(y * width >= 0) by (nonlinear_arith)
        requires
            y >= 0,
            width > 0,
    ;
}

impl Image {
    /// A black image of the given dimensions.
    pub fn new(width: usize, height: usize) -> (r: Image)
        requires
            width * height <= usize::MAX,
        ensures
            image_wf(r),
            r.width == width,
            r.height == height,
            forall|k: int| 0 <= k < r.data@.len() ==> r.data@[k] == (Color { r: 0, g: 0, b: 0 }),
    {
        let total = width * height;
        let mut data: Vec<Color> = Vec::new();
        let mut k: usize = 0;
        while k < total
            invariant
                k <= total,
                data@.len() == k,
                forall|m: int| 0 <= m < k ==> data@[m] == (Color { r: 0, g: 0, b: 0 }),
            decreases total - k,
        {
            data.push(Color { r: 0, g: 0, b: 0 });
            k = k + 1;
        }
        Image { data, width, height }
    }

    /// The pixel of column `x` in row `y` (row `0` is the bottom scanline).
    pub fn get(&self, x: usize, y: usize) -> (r: &Color)
        requires
            image_wf(*self),
            x < self.width,
            y < self.height,
        ensures
            *r == self.data@[y * self.width + x],
    {
        let len = self.data.len();
        proof {
            lemma_index_in_bounds(x as int, y as int, self.width as int, self.height as int);
            assert(y * self.width + x < len);
        }
        &self.data[y * self.width + x]
    }

    /// Replace the pixel of column `x` in row `y`.
    pub fn set(&mut self, x: usize, y: usize, c: Color)
        requires
            image_wf(*old(self)),
            x < old(self).width,
            y < old(self).height,
        ensures
            image_wf(*final(self)),
            final(self).width == old(self).width,
            final(self).height == old(self).height,
            final(self).data@ == old(self).data@.update(y * old(self).width + x, c),
    {
        let len = self.data.len();
        proof {
            lemma_index_in_bounds(x as int, y as int, self.width as int, self.height as int);
            assert(y * self.width + x < len);
        }
        let index = y * self.width + x;
        self.data.set(index, c);
    }
}

} // verus!
