//! The integer stage of the viewport mapping, and pixel-buffer layout facts.
//!
//! A frame is a flat byte buffer of `width * height * 4` bytes, row-major,
//! four bytes (red, green, blue, alpha) per pixel.  A pixel's linear index
//! decomposes as `column = index % width`, `row = index / width`; the pixel is
//! then centred on the frame (`pixel - dimension / 2` on each axis) before the
//! caller scales by the zoom and shifts by the offset to reach the complex
//! plane.  Centring is the part of the mapping that is exact integer
//! arithmetic, and it is shared by every fractal family, so all three share
//! one coordinate system.

use vstd::prelude::*;
use vstd::arithmetic::div_mod::lemma_fundamental_div_mod_converse;

verus! {

/// Decompose a pixel's linear index into its column and row.
pub fn pixel_position(index: usize, width: i32) -> (p: (i32, i32))
    requires
        0 < width,
        index <= i32::MAX,
    ensures
        p.0 == index as int % width as int,
        p.1 == index as int / width as int,
{
    let i = index as i32;
    (i % width, i / width)
}

/// How far a pixel lies from the centre of the frame, on both axes: the
/// column and row of the pixel at `index`, each centred on its dimension.
/// The caller maps the result to a complex-plane coordinate by scaling each
/// axis by the zoom and shifting by the offset.
pub fn pixel_centre_offsets(index: usize, width: i32, height: i32) -> (o: (i32, i32))
    requires
        0 < width,
        0 < height,
        index <= i32::MAX,
    ensures
        o.0 == index as int % width as int - width as int / 2,
        o.1 == index as int / width as int - height as int / 2,
{
    let (x_pixel, y_pixel) = pixel_position(index, width);
    (x_pixel - width / 2, y_pixel - height / 2)
}

/// Whether a byte buffer has exactly the length a `width` by `height` frame
/// needs: four bytes per pixel.  A mismatched buffer is refused before any
/// write.
pub fn buffer_length_matches(len: usize, width: i32, height: i32) -> (r: bool)
    requires
        0 <= width,
        0 <= height,
    ensures
        r <==> len == 4 * width * height,
{
    proof {
        assert(4 * (width as int) * (height as int) < 0x1_0000_0000_0000_0000)
            by (nonlinear_arith)
            requires
                0 <= width < 0x8000_0000,
                0 <= height < 0x8000_0000,
        ;
    }
    let expected: u64 = 4 * (width as u64) * (height as u64);
    len as u64 == expected
}

/// The centre pixel of the frame is centred on both axes: its column offset
/// and row offset are both zero, so the caller's scale-and-shift sends it to
/// the offset point of the plane, whatever the zoom.
pub proof fn lemma_centre_pixel_offsets_zero(width: int, height: int)
    requires
        0 < width,
        0 < height,
    ensures
        ((height / 2) * width + width / 2) % width == width / 2,
        ((height / 2) * width + width / 2) / width == height / 2,
{
    lemma_fundamental_div_mod_converse(
        (height / 2) * width + width / 2,
        width,
        height / 2,
        width / 2,
    );
}

/// Distinct pixels own disjoint four-byte slots of the frame buffer: the
/// slots `[4 * i, 4 * i + 4)` and `[4 * j, 4 * j + 4)` share no byte when
/// `i != j`, so every pixel can be written independently of every other.
pub proof fn lemma_pixel_slots_disjoint(i: int, j: int)
    requires
        0 <= i,
        0 <= j,
        i != j,
    ensures
        4 * i + 4 <= 4 * j || 4 * j + 4 <= 4 * i,
{
}

/// Every pixel's slot lies inside a buffer of the matching length: a pixel
/// index below `width * height` owns bytes below `4 * width * height`.
pub proof fn lemma_pixel_slot_in_bounds(index: int, width: int, height: int)
    requires
        0 <= index < width * height,
    ensures
        4 * index + 4 <= 4 * (width * height),
{
}

} // verus!
