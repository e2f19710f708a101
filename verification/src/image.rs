//! Canvases as images.
//!
//! An image has its first row at the top, a canvas at the bottom; an image
//! holds bytes, a canvas numbers. A channel becomes a byte in two steps:
//! the caller's `stretch` kernel, which is meant to take the numbers from
//! zero to one to the numbers from 0 to 255, and the cut to a byte, which
//! drops the fraction and takes what lies outside the bytes to the nearer
//! end. Where each byte goes is decided here.

use vstd::prelude::*;
use crate::canvas::Canvas;
use crate::scalar::Scalar;

verus! {

/// Where the red byte of the pixel in column `x` of canvas row `y` stands
/// in the image of a canvas of `width` by `height`: rows from the top one
/// down, three bytes to the pixel.
pub open spec fn rgb_offset(width: u32, height: u32, x: u32, y: u32) -> int {
    3 * ((height - 1 - y) * width + x)
}

/// Whether `byte` is the byte of `channel`: what `stretch` makes of the
/// channel, cut to a byte.
pub open spec fn quantized<Q: Fn(Scalar) -> Scalar>(stretch: &Q, channel: Scalar, byte: u8) -> bool {
    exists|level: Scalar| #[trigger] stretch.ensures((channel,), level) && byte == level.to_u8_spec()
}

/// The byte of a channel: what `stretch` makes of the channel, cut to a
/// byte.
pub fn quantize<Q: Fn(Scalar) -> Scalar>(stretch: &Q, channel: Scalar) -> (byte: u8)
    requires
        stretch.requires((channel,)),
    ensures
        quantized(stretch, channel, byte),
{
    stretch(channel).to_u8()
}

/// Whether `bytes` hold the pixel in column `x` of row `y` of the canvas
/// in its place: the bytes of its red, green and blue channel, one after
/// the other from the pixel's offset on.
pub open spec fn holds_pixel<C: Canvas, Q: Fn(Scalar) -> Scalar>(
    canvas: &C,
    stretch: &Q,
    bytes: Seq<u8>,
    x: u32,
    y: u32,
) -> bool {
    let at = rgb_offset(canvas.width_spec(), canvas.height_spec(), x, y);
    let color = canvas.pixel(x, y);
    &&& 0 <= at
    &&& at + 2 < bytes.len()
    &&& quantized(stretch, color.r, bytes[at])
    &&& quantized(stretch, color.g, bytes[at + 1])
    &&& quantized(stretch, color.b, bytes[at + 2])
}

/// A pixel that comes earlier, row by row, stands earlier in the image.
proof fn lemma_rows_in_order(width: int, row: int, x: int, earlier_row: int, earlier_x: int)
    requires
        0 <= earlier_x < width,
        0 <= x <= width,
        0 <= earlier_row,
        earlier_row < row || (earlier_row == row && earlier_x < x),
    ensures
        0 <= earlier_row * width + earlier_x < row * width + x,
{
    assert(0 <= earlier_row * width) by (nonlinear_arith)
        requires
            0 <= earlier_row,
            0 <= width,
    ;
    if earlier_row < row {
        assert((earlier_row + 1) * width <= row * width) by (nonlinear_arith)
            requires
                earlier_row + 1 <= row,
                0 <= width,
        ;
        assert((earlier_row + 1) * width == earlier_row * width + width) by (nonlinear_arith);
    }
}

/// Where the byte of channel `c` of a pixel stands: red at the pixel's
/// offset, green and blue behind it.
pub open spec fn channel_offset(width: u32, height: u32, x: u32, y: u32, c: int) -> int {
    rgb_offset(width, height, x, y) + c
}

/// Every byte of the image is a channel of one pixel of the canvas, and of
/// one only: the image holds nothing but the pixels, and each at a place of
/// its own.
pub proof fn lemma_every_byte_is_a_channel(width: u32, height: u32, k: int)
    requires
        0 <= k < 3 * (width * height),
    ensures
        exists|x: u32, y: u32, c: int|
            x < width && y < height && 0 <= c < 3 && k == #[trigger] channel_offset(
                width,
                height,
                x,
                y,
                c,
            ),
        forall|x: u32, y: u32, c: int, i: u32, j: u32, e: int|
            x < width && y < height && 0 <= c < 3 && i < width && j < height && 0 <= e < 3 && k
                == #[trigger] channel_offset(width, height, x, y, c) && k
                == #[trigger] channel_offset(width, height, i, j, e) ==> x == i && y == j && c == e,
{
    let w = width as int;
    let pixel = k / 3;
    let c = k % 3;
    assert(0 <= pixel < w * height);
    assert(w > 0) by (nonlinear_arith)
        requires
            0 <= pixel < w * height,
            0 <= w,
    ;
    let row = pixel / w;
    let column = pixel % w;
    vstd::arithmetic::div_mod::lemma_fundamental_div_mod(pixel, w);
    vstd::arithmetic::div_mod::lemma_div_pos_is_pos(pixel, w);
    assert(row < height) by (nonlinear_arith)
        requires
            pixel == w * row + column,
            0 <= column,
            pixel < w * height,
            0 < w,
    ;
    let x = column as u32;
    let y = (height - 1 - row) as u32;
    assert(row * width + column == pixel) by (nonlinear_arith)
        requires
            pixel == w * row + column,
            w == width,
    ;
    assert(k == channel_offset(width, height, x, y, c));
    assert forall|x: u32, y: u32, c: int, i: u32, j: u32, e: int|
        x < width && y < height && 0 <= c < 3 && i < width && j < height && 0 <= e < 3 && k
            == #[trigger] channel_offset(width, height, x, y, c) && k
            == #[trigger] channel_offset(width, height, i, j, e) implies x == i && y == j && c
        == e by {
        assert(height - 1 - y == height - 1 - j) by (nonlinear_arith)
            requires
                (height - 1 - y) * width + x == (height - 1 - j) * width + i,
                x < width,
                i < width,
                0 <= height - 1 - y,
                0 <= height - 1 - j,
        ;
    }
}

/// The canvas as an image of three bytes to the pixel, red, green and blue,
/// the rows from the top one down.
pub fn to_rgb24<C, Q>(canvas: &C, stretch: &Q) -> (bytes: Vec<u8>) where
    C: Canvas,
    Q: Fn(Scalar) -> Scalar,

    requires
        forall|x: Scalar| stretch.requires((x,)),
        3 * canvas.width_spec() * canvas.height_spec() <= usize::MAX,
    ensures
        bytes@.len() == 3 * canvas.width_spec() * canvas.height_spec(),
        forall|x: u32, y: u32|
            x < canvas.width_spec() && y < canvas.height_spec() ==> #[trigger] holds_pixel(
                canvas,
                stretch,
                bytes@,
                x,
                y,
            ),
{
    let width = canvas.width();
    let height = canvas.height();
    let mut bytes: Vec<u8> = Vec::new();
    let mut row: u32 = 0;
    while row < height
        invariant
            row <= height,
            width == canvas.width_spec(),
            height == canvas.height_spec(),
            forall|x: Scalar| stretch.requires((x,)),
            3 * width * height <= usize::MAX,
            bytes@.len() == 3 * (row * width),
            forall|x: u32, y: u32|
                x < width && y < height && height - 1 - y < row ==> #[trigger] holds_pixel(
                    canvas,
                    stretch,
                    bytes@,
                    x,
                    y,
                ),
        decreases height - row,
    {
        let y = height - 1 - row;
        let mut x: u32 = 0;
        while x < width
            invariant
                x <= width,
                row < height,
                y == height - 1 - row,
                width == canvas.width_spec(),
                height == canvas.height_spec(),
                forall|x: Scalar| stretch.requires((x,)),
                3 * width * height <= usize::MAX,
                bytes@.len() == 3 * (row * width + x),
                forall|i: u32, j: u32|
                    i < width && j < height && (height - 1 - j < row || (j == y && i < x))
                        ==> #[trigger] holds_pixel(canvas, stretch, bytes@, i, j),
            decreases width - x,
        {
            let color = canvas.get_pixel(x, y);
            let red = quantize(stretch, color.r);
            let green = quantize(stretch, color.g);
            let blue = quantize(stretch, color.b);
            let ghost before = bytes@;
            proof {
                lemma_rows_in_order(width as int, height as int, 0, row as int, x as int);
                assert(3 * (row * width + x) + 3 <= 3 * (height * width));
                assert(3 * (height * width) == 3 * width * height) by (nonlinear_arith);
            }
            bytes.push(red);
            bytes.push(green);
            bytes.push(blue);
            proof {
                assert forall|i: u32, j: u32|
                    i < width && j < height && (height - 1 - j < row || (j == y && i < x + 1))
                    implies #[trigger] holds_pixel(canvas, stretch, bytes@, i, j) by {
                    let at = rgb_offset(width, height, i, j);
                    if j == y && i == x {
                        assert(at == before.len());
                    } else {
                        lemma_rows_in_order(
                            width as int,
                            row as int,
                            x as int,
                            height - 1 - j,
                            i as int,
                        );
                        assert(holds_pixel(canvas, stretch, before, i, j));
                        assert(at + 2 < before.len());
                        assert(bytes@[at] == before[at]);
                        assert(bytes@[at + 1] == before[at + 1]);
                        assert(bytes@[at + 2] == before[at + 2]);
                    }
                }
            }
            x += 1;
        }
        proof {
            assert((row + 1) * width == row * width + width) by (nonlinear_arith);
        }
        row += 1;
    }
    proof {
        assert(3 * (height * width) == 3 * width * height) by (nonlinear_arith);
    }
    bytes
}

} // verus!
