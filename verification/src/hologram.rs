//! What the hologram of a frame is: the picture, of `size * size` RGBA pixels,
//! that shows the frame once in each band and black everywhere else.
//!
//! An image is a sequence of bytes, row by row, four bytes to a pixel.

use crate::geometry::Geometry;
use crate::zones::{in_frame, in_grid, source_pixel, zone_of};
use vstd::prelude::*;

verus! {

/// The four bytes of the pixel `(x, y)` of an image `width` pixels wide.
pub open spec fn pixel_at(image: Seq<u8>, width: int, x: int, y: int) -> Seq<u8> {
    image.subrange(4 * (x + width * y), 4 * (x + width * y) + 4)
}

/// Black, fully opaque.
pub open spec fn opaque_black() -> Seq<u8> {
    seq![0u8, 0u8, 0u8, 255u8]
}

/// The colour of the pixel `(x, y)` of the hologram of `frame`: that of the
/// frame pixel which it shows, black where it shows none.
pub open spec fn hologram_pixel(geometry: Geometry, frame: Seq<u8>, x: int, y: int) -> Seq<u8> {
    match source_pixel(geometry.band_width as int, geometry.band_length as int, x, y) {
        Some((fx, fy)) => pixel_at(frame, geometry.band_length as int, fx, fy),
        None => opaque_black(),
    }
}

/// Byte `i` of the hologram of `frame`: a byte of the pixel that it belongs to.
pub open spec fn hologram_byte(geometry: Geometry, frame: Seq<u8>, i: int) -> u8 {
    let pixel = i / 4;
    hologram_pixel(geometry, frame, pixel % (geometry.size as int), pixel / (geometry.size as int))[i
        % 4]
}

/// The hologram of `frame`.
pub open spec fn hologram(geometry: Geometry, frame: Seq<u8>) -> Seq<u8> {
    Seq::new(geometry.buffer_len(), |i: int| hologram_byte(geometry, frame, i))
}

/// The bytes of the pixel `(x, y)` of a square image lie inside the image,
/// and their place gives the pixel back.
pub proof fn lemma_pixel_index(size: int, x: int, y: int)
    requires
        0 <= x < size,
        0 <= y < size,
    ensures
        0 <= x + size * y < size * size,
        (x + size * y) % size == x,
        (x + size * y) / size == y,
{
    assert(0 <= size * y && size * y + size <= size * size) by (nonlinear_arith)
        requires
            0 <= y < size,
    ;
    vstd::arithmetic::mul::lemma_mul_is_commutative(size, y);
    vstd::arithmetic::div_mod::lemma_fundamental_div_mod_converse(x + size * y, size, y, x);
}

/// The frame pixel `(fx, fy)` lies inside a frame of the geometry's length.
pub proof fn lemma_frame_index(geometry: Geometry, fx: int, fy: int)
    requires
        in_frame(geometry.band_width as int, geometry.band_length as int, fx, fy),
    ensures
        0 <= 4 * (fx + geometry.band_length * fy),
        4 * (fx + geometry.band_length * fy) + 4 <= geometry.frame_len(),
{
    let bw = geometry.band_width as int;
    let bl = geometry.band_length as int;
    assert(0 <= bl * fy && bl * fy + bl <= bl * bw && 4 * bl * bw == 4 * (bl * bw))
        by (nonlinear_arith)
        requires
            0 <= fy < bw,
            0 <= bl,
    ;
}

/// The hologram fills the buffer, and byte `c` of its pixel `(x, y)` is byte
/// `c` of the colour that `hologram_pixel` gives.
pub proof fn lemma_hologram_bytes(geometry: Geometry, frame: Seq<u8>, x: int, y: int, c: int)
    requires
        geometry.valid(),
        in_grid(geometry.band_width as int, geometry.band_length as int, x, y),
        0 <= c < 4,
    ensures
        hologram(geometry, frame).len() == geometry.buffer_len(),
        0 <= 4 * (x + geometry.size * y),
        4 * (x + geometry.size * y) + 4 <= geometry.buffer_len(),
        hologram(geometry, frame)[4 * (x + geometry.size * y) + c] == hologram_pixel(
            geometry,
            frame,
            x,
            y,
        )[c],
{
    let size = geometry.size as int;
    let pixel = x + size * y;
    lemma_pixel_index(size, x, y);
    assert(4 * size * size == 4 * (size * size)) by (nonlinear_arith);
    assert((4 * pixel + c) / 4 == pixel);
    assert((4 * pixel + c) % 4 == c);
}

/// Each pixel of the hologram of a frame of the right length has the colour
/// that `hologram_pixel` gives: that of the frame pixel which it shows, or
/// black.
pub proof fn lemma_hologram_pixels(geometry: Geometry, frame: Seq<u8>, x: int, y: int)
    requires
        geometry.valid(),
        frame.len() == geometry.frame_len(),
        in_grid(geometry.band_width as int, geometry.band_length as int, x, y),
    ensures
        pixel_at(hologram(geometry, frame), geometry.size as int, x, y) == hologram_pixel(
            geometry,
            frame,
            x,
            y,
        ),
{
    let shown = pixel_at(hologram(geometry, frame), geometry.size as int, x, y);
    let colour = hologram_pixel(geometry, frame, x, y);
    match source_pixel(geometry.band_width as int, geometry.band_length as int, x, y) {
        Some((fx, fy)) => {
            crate::zones::lemma_source_pixel_in_frame(
                geometry.band_width as int,
                geometry.band_length as int,
                x,
                y,
            );
            lemma_frame_index(geometry, fx, fy);
        },
        None => {},
    }
    assert forall|c: int| 0 <= c < 4 implies shown[c] == colour[c] by {
        lemma_hologram_bytes(geometry, frame, x, y, c);
    }
    lemma_hologram_bytes(geometry, frame, x, y, 0);
    assert(shown =~= colour);
}

/// Every pixel of a corner and of the centre is black and opaque, whatever
/// the frame holds.
pub proof fn lemma_black_zones(geometry: Geometry, frame: Seq<u8>, x: int, y: int)
    requires
        geometry.valid(),
        in_grid(geometry.band_width as int, geometry.band_length as int, x, y),
        zone_of(geometry.band_width as int, geometry.band_length as int, x, y) is Corner || zone_of(
            geometry.band_width as int,
            geometry.band_length as int,
            x,
            y,
        ) is Center,
    ensures
        pixel_at(hologram(geometry, frame), geometry.size as int, x, y) == opaque_black(),
{
    let shown = pixel_at(hologram(geometry, frame), geometry.size as int, x, y);
    assert forall|c: int| 0 <= c < 4 implies shown[c] == opaque_black()[c] by {
        lemma_hologram_bytes(geometry, frame, x, y, c);
    }
    lemma_hologram_bytes(geometry, frame, x, y, 0);
    assert(shown =~= opaque_black());
}

} // verus!
