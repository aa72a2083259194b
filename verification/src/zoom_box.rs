//! The selection-box overlay: a rectangular border, three pixels thick,
//! drawn in white straight into a frame buffer.
//!
//! The border consists of three-row bands along the top and bottom edges of
//! the selected rectangle and three-pixel-wide runs at its left and right
//! edges on every row in between.  Each run is a contiguous byte range of the
//! row-major buffer, so a run that reaches past the right edge of the frame
//! wraps into the following row.

use vstd::prelude::*;
use vstd::math::{max, min};
use vstd::arithmetic::mul::lemma_mul_inequality;
use vstd::arithmetic::mul::lemma_mul_is_distributive_add_other_way;
use vstd::arithmetic::mul::lemma_mul_is_distributive_sub_other_way;

verus! {

/// First byte of the pixel at column `x`, row `y` of a frame `w` pixels wide.
pub open spec fn pixel_byte(x: int, y: int, w: int) -> int {
    (y * w + x) * 4
}

/// Whether byte `j` lies in the run of `span` bytes starting at `start`.
pub open spec fn in_band(j: int, start: int, span: int) -> bool {
    start <= j < start + span
}

/// Bytes of the first `k` rows of the top border band together with the
/// first `k` rows of the bottom border band.  The top band grows downward
/// from the top edge of the selection, the bottom band upward from its
/// bottom edge; each row's run is `box_width + 3` pixels long.
pub open spec fn in_horizontal_rows(
    j: int,
    k: int,
    x1: int,
    y1: int,
    x2: int,
    y2: int,
    box_width: int,
    screen_width: int,
) -> bool
    decreases k,
{
    0 < k && {
        let top = pixel_byte(min(x1, x2), min(y1, y2) + (k - 1), screen_width);
        let bottom = pixel_byte(min(x1, x2), max(y1, y2) - (k - 1), screen_width);
        let span = (box_width + 3) * 4;
        in_band(j, top, span) || in_band(j, bottom, span) || in_horizontal_rows(
            j,
            k - 1,
            x1,
            y1,
            x2,
            y2,
            box_width,
            screen_width,
        )
    }
}

/// Bytes of the left and right border runs on the rows from the top edge of
/// the selection up to, but not including, row `yend`: on each such row a
/// three-pixel run at the left edge and one at `box_width` pixels further
/// right.
pub open spec fn in_vertical_rows(
    j: int,
    yend: int,
    x1: int,
    y1: int,
    x2: int,
    y2: int,
    box_width: int,
    screen_width: int,
) -> bool
    decreases yend - min(y1, y2),
{
    min(y1, y2) < yend && {
        let left = pixel_byte(min(x1, x2), yend - 1, screen_width);
        let right = pixel_byte(min(x1, x2) + box_width, yend - 1, screen_width);
        in_band(j, left, 12) || in_band(j, right, 12) || in_vertical_rows(
            j,
            yend - 1,
            x1,
            y1,
            x2,
            y2,
            box_width,
            screen_width,
        )
    }
}

/// Every byte the selection-box border covers: the three top and bottom
/// border rows, and the left and right runs on the rows between the top edge
/// and the bottom edge.
pub open spec fn in_zoom_box_border(
    j: int,
    x1: int,
    y1: int,
    x2: int,
    y2: int,
    box_width: int,
    screen_width: int,
) -> bool {
    in_horizontal_rows(j, 3, x1, y1, x2, y2, box_width, screen_width) || in_vertical_rows(
        j,
        max(y1, y2),
        x1,
        y1,
        x2,
        y2,
        box_width,
        screen_width,
    )
}

/// How a frame looks once the selection box is drawn into `before`: every
/// byte the border covers is 255, every other byte keeps its value.
pub open spec fn zoom_box_drawn(
    before: Seq<u8>,
    after: Seq<u8>,
    x1: int,
    y1: int,
    x2: int,
    y2: int,
    box_width: int,
    screen_width: int,
) -> bool {
    &&& after.len() == before.len()
    &&& forall|j: int|
        0 <= j < before.len() ==> after[j] == (if in_zoom_box_border(
            j,
            x1,
            y1,
            x2,
            y2,
            box_width,
            screen_width,
        ) {
            255u8
        } else {
            before[j]
        })
}

/// Drawing the selection box is deterministic: from one frame, one result.
pub proof fn lemma_zoom_box_deterministic(
    before: Seq<u8>,
    after1: Seq<u8>,
    after2: Seq<u8>,
    x1: int,
    y1: int,
    x2: int,
    y2: int,
    box_width: int,
    screen_width: int,
)
    requires
        zoom_box_drawn(before, after1, x1, y1, x2, y2, box_width, screen_width),
        zoom_box_drawn(before, after2, x1, y1, x2, y2, box_width, screen_width),
    ensures
        after1 == after2,
{
    assert(after1 =~= after2);
}

/// Drawing the selection box twice leaves the frame as one drawing does:
/// the bytes of the border are already 255 and the rest were kept, so the
/// second drawing changes nothing.
pub proof fn lemma_zoom_box_idempotent(
    before: Seq<u8>,
    once: Seq<u8>,
    twice: Seq<u8>,
    x1: int,
    y1: int,
    x2: int,
    y2: int,
    box_width: int,
    screen_width: int,
)
    requires
        zoom_box_drawn(before, once, x1, y1, x2, y2, box_width, screen_width),
        zoom_box_drawn(once, twice, x1, y1, x2, y2, box_width, screen_width),
    ensures
        twice == once,
{
    assert(twice =~= once);
}

/// A byte run at `(x, y)` never starts before one at a position that is at
/// least as far left and at least as high.
proof fn lemma_pixel_byte_mono(xa: int, ya: int, xb: int, yb: int, w: int)
    requires
        xa <= xb,
        ya <= yb,
        0 <= w,
    ensures
        pixel_byte(xa, ya, w) <= pixel_byte(xb, yb, w),
{
    lemma_mul_inequality(ya, yb, w);
}

/// Overwrite `count` bytes of the buffer, starting at `start`, with `value`.
#[verifier::loop_isolation(false)]
fn fill_bytes(pixels: &mut Vec<u8>, start: usize, count: usize, value: u8)
    requires
        start + count <= old(pixels).len(),
    ensures
        final(pixels)@.len() == old(pixels)@.len(),
        forall|j: int|
            0 <= j < old(pixels)@.len() ==> final(pixels)@[j] == (if in_band(
                j,
                start as int,
                count as int,
            ) {
                value
            } else {
                old(pixels)@[j]
            }),
{
    let mut k: usize = 0;
    while k < count
        invariant
            k <= count,
            pixels@.len() == old(pixels)@.len(),
            forall|j: int|
                0 <= j < pixels@.len() ==> pixels@[j] == (if in_band(j, start as int, k as int) {
                    value
                } else {
                    old(pixels)@[j]
                }),
        decreases count - k,
    {
        pixels.set(start + k, value);
        k = k + 1;
    }
}

/// Draw the selection-box border into the frame buffer: every byte the
/// border covers becomes 255, every other byte keeps its value.
///
/// `(x1, y1)` and `(x2, y2)` are two opposite corners of the selection, in
/// pixels; `box_width` is the selection's width in pixels, supplied by the
/// caller; `screen_width` is the frame's width in pixels.  The preconditions
/// keep every run of the border inside the buffer; the bottom edge must lie
/// at least two rows down so the bottom band has room to grow upward.
#[verifier::loop_isolation(false)]
pub fn draw_zoom_box(
    pixels: &mut Vec<u8>,
    x1: usize,
    y1: usize,
    x2: usize,
    y2: usize,
    box_width: usize,
    screen_width: usize,
)
    requires
        2 <= max(y1 as int, y2 as int),
        pixel_byte(
            min(x1 as int, x2 as int) + box_width + 3,
            min(y1 as int, y2 as int) + 2,
            screen_width as int,
        ) <= old(pixels).len(),
        pixel_byte(
            min(x1 as int, x2 as int) + box_width + 3,
            max(y1 as int, y2 as int),
            screen_width as int,
        ) <= old(pixels).len(),
    ensures
        zoom_box_drawn(
            old(pixels)@,
            final(pixels)@,
            x1 as int,
            y1 as int,
            x2 as int,
            y2 as int,
            box_width as int,
            screen_width as int,
        ),
{
    let xm = if x1 <= x2 {
        x1
    } else {
        x2
    };
    let ym = if y1 <= y2 {
        y1
    } else {
        y2
    };
    let y_max = if y1 <= y2 {
        y2
    } else {
        y1
    };
    proof {
        lemma_pixel_byte_mono(
            xm as int,
            ym as int,
            xm as int + box_width + 3,
            ym as int + 2,
            screen_width as int,
        );
        lemma_pixel_byte_mono(
            xm as int,
            y_max as int,
            xm as int + box_width + 3,
            y_max as int,
            screen_width as int,
        );
    }
    let top_left_pixel = (ym * screen_width + xm) * 4;
    let bottom_left_pixel = (y_max * screen_width + xm) * 4;
    let span = (box_width + 3) * 4;

    // The three rows of the top and bottom border bands.
    let mut i: usize = 0;
    while i < 3
        invariant
            i <= 3,
            pixels@.len() == old(pixels)@.len(),
            forall|j: int|
                0 <= j < pixels@.len() ==> pixels@[j] == (if in_horizontal_rows(
                    j,
                    i as int,
                    x1 as int,
                    y1 as int,
                    x2 as int,
                    y2 as int,
                    box_width as int,
                    screen_width as int,
                ) {
                    255u8
                } else {
                    old(pixels)@[j]
                }),
        decreases 3 - i,
    {
        proof {
            lemma_mul_is_distributive_add_other_way(screen_width as int, ym as int, i as int);
            lemma_mul_is_distributive_sub_other_way(screen_width as int, y_max as int, i as int);
            lemma_mul_inequality(i as int, y_max as int, screen_width as int);
            lemma_mul_inequality(0, y_max as int - i, screen_width as int);
            lemma_pixel_byte_mono(
                xm as int + box_width + 3,
                ym as int + i,
                xm as int + box_width + 3,
                ym as int + 2,
                screen_width as int,
            );
            lemma_pixel_byte_mono(
                xm as int + box_width + 3,
                y_max as int - i,
                xm as int + box_width + 3,
                y_max as int,
                screen_width as int,
            );
            assert(top_left_pixel + i * (screen_width as int) * 4 == pixel_byte(
                xm as int,
                ym as int + i,
                screen_width as int,
            ));
            assert(bottom_left_pixel - i * (screen_width as int) * 4 == pixel_byte(
                xm as int,
                y_max as int - i,
                screen_width as int,
            ));
        }
        let y_offset = i * screen_width * 4;
        fill_bytes(pixels, top_left_pixel + y_offset, span, 255);
        fill_bytes(pixels, bottom_left_pixel - y_offset, span, 255);
        i = i + 1;
    }

    // The left and right border runs on the rows between the two edges.
    let mut y = ym;
    while y < y_max
        invariant
            ym <= y <= y_max,
            pixels@.len() == old(pixels)@.len(),
            forall|j: int|
                0 <= j < pixels@.len() ==> pixels@[j] == (if in_horizontal_rows(
                    j,
                    3,
                    x1 as int,
                    y1 as int,
                    x2 as int,
                    y2 as int,
                    box_width as int,
                    screen_width as int,
                ) || in_vertical_rows(
                    j,
                    y as int,
                    x1 as int,
                    y1 as int,
                    x2 as int,
                    y2 as int,
                    box_width as int,
                    screen_width as int,
                ) {
                    255u8
                } else {
                    old(pixels)@[j]
                }),
        decreases y_max - y,
    {
        proof {
            lemma_pixel_byte_mono(
                xm as int + box_width + 3,
                y as int,
                xm as int + box_width + 3,
                y_max as int,
                screen_width as int,
            );
            lemma_mul_inequality(0, y as int, screen_width as int);
        }
        let pixel = (y * screen_width + xm) * 4;
        fill_bytes(pixels, pixel, 12, 255);
        fill_bytes(pixels, pixel + box_width * 4, 12, 255);
        y = y + 1;
    }
}

} // verus!
