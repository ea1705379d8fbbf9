//! The pixel buffer that a grid is painted into.
//!
//! The buffer is the `image` crate's. What is known of it here is what the
//! three names `canvas_width`, `canvas_height` and `canvas_bytes` say, and the
//! contracts of the three calls into the crate are believed, not proved.

use vstd::prelude::*;
use crate::color::Color;

verus! {

/// The pixel `(x, y)` of an image of the given width that is laid down in
/// `bytes` row after row, three bytes a pixel: red, green, blue.
pub open spec fn pixel_of(bytes: Seq<u8>, width: nat, x: int, y: int) -> Color {
    let at = 3 * (y * width + x);
    Color { r: bytes[at], g: bytes[at + 1], b: bytes[at + 2] }
}

/// The three bytes of a pixel inside the image lie inside its data.
pub proof fn lemma_pixel_in_bytes(width: nat, height: nat, x: int, y: int)
    requires
        0 <= x < width,
        0 <= y < height,
    ensures
        0 <= y * width + x < width * height,
        0 <= 3 * (y * width + x),
        3 * (y * width + x) + 3 <= 3 * width * height,
        0 <= y * width <= width * height,
        3 * width * height == 3 * (width * height),
{
    let w = width as int;
    let h = height as int;
    assert(0 <= y * w && y * w + w <= w * h) by (nonlinear_arith)
        requires
            0 <= y < h,
            0 < w,
    ;
    assert(3 * w * h == 3 * (w * h)) by (nonlinear_arith);
}

/// Two pixels of one image have their bytes apart.
pub proof fn lemma_pixels_apart(width: nat, x: int, y: int, px: int, py: int)
    requires
        0 <= x < width,
        0 <= px < width,
        0 <= y,
        0 <= py,
        x != px || y != py,
    ensures
        y * width + x != py * width + px,
{
    let w = width as int;
    if y < py {
        assert(y * w + w <= py * w) by (nonlinear_arith)
            requires
                y < py,
                0 < w,
        ;
    } else if py < y {
        assert(py * w + w <= y * w) by (nonlinear_arith)
            requires
                py < y,
                0 < w,
        ;
    }
}

/// An image buffer of the `image` crate with three bytes a pixel. Verus does
/// not look inside: it knows of a buffer only what the names below say.
#[verifier::external_body]
pub struct Canvas {
    inner: image::RgbImage,
}

/// The width of the buffer, in pixels.
pub uninterp spec fn canvas_width(canvas: Canvas) -> nat;

/// The height of the buffer, in pixels.
pub uninterp spec fn canvas_height(canvas: Canvas) -> nat;

/// The bytes of the buffer: row after row from the top, three bytes a pixel.
pub uninterp spec fn canvas_bytes(canvas: Canvas) -> Seq<u8>;

/// `image::ImageBuffer::new`: a buffer of the given size whose bytes are all
/// zero. It panics where the bytes would not fit a vector, which the
/// precondition leaves out.
#[verifier::external_body]
pub(crate) fn blank_canvas(width: u32, height: u32) -> (canvas: Canvas)
    requires
        3 * width * height <= isize::MAX,
    ensures
        canvas_width(canvas) == width,
        canvas_height(canvas) == height,
        canvas_bytes(canvas) == Seq::new((3 * width * height) as nat, |i: int| 0u8),
{
    Canvas { inner: image::ImageBuffer::new(width, height) }
}

/// `image::ImageBuffer::put_pixel`: writes the three channels of `color` at
/// the place of the pixel `(x, y)` and leaves everything else as it was. It
/// panics for a pixel outside the buffer, which the precondition leaves out.
#[verifier::external_body]
fn put_pixel(canvas: &mut Canvas, x: u32, y: u32, color: Color)
    requires
        x < canvas_width(*old(canvas)),
        y < canvas_height(*old(canvas)),
    ensures
        canvas_width(*final(canvas)) == canvas_width(*old(canvas)),
        canvas_height(*final(canvas)) == canvas_height(*old(canvas)),
        canvas_bytes(*final(canvas)) == canvas_bytes(*old(canvas)).update(
            3 * (y * canvas_width(*old(canvas)) + x),
            color.r,
        ).update(3 * (y * canvas_width(*old(canvas)) + x) + 1, color.g).update(
            3 * (y * canvas_width(*old(canvas)) + x) + 2,
            color.b,
        ),
{
    canvas.inner.put_pixel(x, y, image::Rgb([color.r, color.g, color.b]));
}

/// `image::ImageBuffer::into_raw`: the bytes of the buffer.
#[verifier::external_body]
pub(crate) fn into_bytes(canvas: Canvas) -> (bytes: Vec<u8>)
    ensures
        bytes@ == canvas_bytes(canvas),
{
    canvas.inner.into_raw()
}

/// Whether the buffer holds exactly the bytes of its pixels.
pub open spec fn canvas_is_complete(canvas: Canvas) -> bool {
    &&& canvas_width(canvas) <= u32::MAX
    &&& canvas_height(canvas) <= u32::MAX
    &&& canvas_bytes(canvas).len() == 3 * canvas_width(canvas) * canvas_height(canvas)
}

/// The pixel `(x, y)` of the buffer.
pub open spec fn canvas_pixel(canvas: Canvas, x: int, y: int) -> Color {
    pixel_of(canvas_bytes(canvas), canvas_width(canvas), x, y)
}

/// Gives one pixel its color; every other pixel keeps its own.
pub(crate) fn set_pixel(canvas: &mut Canvas, x: u32, y: u32, color: Color)
    requires
        canvas_is_complete(*old(canvas)),
        x < canvas_width(*old(canvas)),
        y < canvas_height(*old(canvas)),
    ensures
        canvas_is_complete(*final(canvas)),
        canvas_width(*final(canvas)) == canvas_width(*old(canvas)),
        canvas_height(*final(canvas)) == canvas_height(*old(canvas)),
        forall|px: int, py: int|
            0 <= px < canvas_width(*old(canvas)) && 0 <= py < canvas_height(*old(canvas))
                ==> #[trigger] canvas_pixel(*final(canvas), px, py) == (if px == x && py == y {
                color
            } else {
                canvas_pixel(*old(canvas), px, py)
            }),
{
    let ghost before = *canvas;
    put_pixel(canvas, x, y, color);
    proof {
        let w = canvas_width(before);
        let h = canvas_height(before);
        lemma_pixel_in_bytes(w, h, x as int, y as int);
        assert forall|px: int, py: int| 0 <= px < w && 0 <= py < h implies #[trigger] canvas_pixel(
            *canvas,
            px,
            py,
        ) == (if px == x && py == y {
            color
        } else {
            canvas_pixel(before, px, py)
        }) by {
            lemma_pixel_in_bytes(w, h, px, py);
            if px != x || py != y {
                lemma_pixels_apart(w, x as int, y as int, px, py);
            }
        }
    }
}

} // verus!
