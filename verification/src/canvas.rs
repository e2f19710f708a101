//! Canvases: grids of colors that a renderer draws on.
//!
//! A pixel is addressed by its column `x` and its row `y`; `(0, 0)` is the
//! bottom left pixel and `(width - 1, height - 1)` the top right one.

use vstd::prelude::*;
use crate::color::Color;

verus! {

/// A surface of `width` by `height` pixels that can be read and drawn on.
pub trait Canvas {
    /// The number of columns.
    spec fn width_spec(&self) -> u32;

    /// The number of rows.
    spec fn height_spec(&self) -> u32;

    /// The color of the pixel in column `x` of row `y`.
    spec fn pixel(&self, x: u32, y: u32) -> Color;

    /// The color of the pixel in column `x` of row `y`.
    fn get_pixel(&self, x: u32, y: u32) -> (color: Color)
        requires
            x < self.width_spec(),
            y < self.height_spec(),
        ensures
            color == self.pixel(x, y),
    ;

    /// Draws one pixel, and leaves every other pixel and the size as they were.
    fn set_pixel(&mut self, x: u32, y: u32, color: Color)
        requires
            x < old(self).width_spec(),
            y < old(self).height_spec(),
        ensures
            final(self).width_spec() == old(self).width_spec(),
            final(self).height_spec() == old(self).height_spec(),
            final(self).pixel(x, y) == color,
            forall|i: u32, j: u32|
                i < old(self).width_spec() && j < old(self).height_spec() && (i != x || j != y)
                    ==> final(self).pixel(i, j) == old(self).pixel(i, j),
    ;

    /// The number of columns.
    fn width(&self) -> (w: u32)
        ensures
            w == self.width_spec(),
    ;

    /// The number of rows.
    fn height(&self) -> (h: u32)
        ensures
            h == self.height_spec(),
    ;
}

/// A canvas held in memory, row after row from the bottom one up.
pub struct FrameBufferCanvas {
    width: u32,
    height: u32,
    pixels: Vec<Color>,
}

impl FrameBufferCanvas {
    #[verifier::type_invariant]
    spec fn well_formed(&self) -> bool {
        &&& self.width * self.height <= u32::MAX
        &&& self.pixels@.len() == self.width * self.height
    }

    /// Where the pixel in column `x` of row `y` stands in the buffer.
    pub open spec fn offset(width: u32, x: u32, y: u32) -> int {
        y * width + x
    }

    /// A canvas of `width` by `height` pixels, all of them magenta, so that
    /// a pixel that was never drawn stands out.
    pub fn new(width: u32, height: u32) -> (canvas: FrameBufferCanvas)
        requires
            width * height <= u32::MAX,
        ensures
            canvas.width_spec() == width,
            canvas.height_spec() == height,
            forall|x: u32, y: u32| x < width && y < height ==> canvas.pixel(x, y) == Color::magenta(),
    {
        let count: u32 = width * height;
        let mut pixels: Vec<Color> = Vec::new();
        let mut i: u32 = 0;
        while i < count
            invariant
                i <= count,
                pixels@.len() == i,
                forall|k: int| 0 <= k < i ==> pixels@[k] == Color::magenta(),
            decreases count - i,
        {
            pixels.push(Color::magenta());
            i += 1;
        }
        let canvas = FrameBufferCanvas { width, height, pixels };
        proof {
            assert forall|x: u32, y: u32| x < width && y < height implies canvas.pixel(x, y)
                == Color::magenta() by {
                lemma_offset_in_range(width, height, x, y);
            }
        }
        canvas
    }
}

/// A pixel of the grid has its place in the buffer, and two pixels share
/// a place only if they are the same pixel.
pub proof fn lemma_offset_in_range(width: u32, height: u32, x: u32, y: u32)
    requires
        x < width,
        y < height,
    ensures
        0 <= FrameBufferCanvas::offset(width, x, y) < width * height,
{
    assert(y * width + x < width * height) by (nonlinear_arith)
        requires
            x < width,
            y < height,
    ;
    assert(0 <= y * width) by (nonlinear_arith);
}

/// Two pixels of the grid share a place in the buffer only if they are the
/// same pixel.
pub proof fn lemma_offset_injective(width: u32, x: u32, y: u32, i: u32, j: u32)
    requires
        x < width,
        i < width,
        FrameBufferCanvas::offset(width, x, y) == FrameBufferCanvas::offset(width, i, j),
    ensures
        x == i,
        y == j,
{
    assert(y == j) by (nonlinear_arith)
        requires
            x < width,
            i < width,
            y * width + x == j * width + i,
    ;
}

impl Canvas for FrameBufferCanvas {
    closed spec fn width_spec(&self) -> u32 {
        self.width
    }

    closed spec fn height_spec(&self) -> u32 {
        self.height
    }

    closed spec fn pixel(&self, x: u32, y: u32) -> Color {
        self.pixels@[FrameBufferCanvas::offset(self.width, x, y)]
    }

    fn get_pixel(&self, x: u32, y: u32) -> (color: Color) {
        proof {
            use_type_invariant(self);
            lemma_offset_in_range(self.width, self.height, x, y);
        }
        self.pixels[(y * self.width + x) as usize]
    }

    fn set_pixel(&mut self, x: u32, y: u32, color: Color) {
        proof {
            use_type_invariant(&*self);
            lemma_offset_in_range(self.width, self.height, x, y);
        }
        self.pixels[(y * self.width + x) as usize] = color;
        proof {
            assert forall|i: u32, j: u32|
                i < self.width && j < self.height && (i != x || j != y) implies self.pixel(i, j)
                == old(self).pixel(i, j) by {
                lemma_offset_in_range(self.width, self.height, i, j);
                if FrameBufferCanvas::offset(self.width, i, j) == FrameBufferCanvas::offset(
                    self.width,
                    x,
                    y,
                ) {
                    lemma_offset_injective(self.width, x, y, i, j);
                }
            }
        }
    }

    fn width(&self) -> (w: u32) {
        self.width
    }

    fn height(&self) -> (h: u32) {
        self.height
    }
}

} // verus!
