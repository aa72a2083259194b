use fractals::zoom_box::draw_zoom_box;

/// Reference drawing of the selection-box border: three-row bands along the
/// top and bottom edges, three-pixel runs at the left and right edges of the
/// rows in between, written as contiguous byte-range copies.
fn reference_zoom_box(
    pixels: &mut [u8],
    x1: usize,
    y1: usize,
    x2: usize,
    y2: usize,
    width: usize,
    screen_width: usize,
) {
    let top_left_pixel = (y1.min(y2) * screen_width + x1.min(x2)) * 4;
    let bottom_left_pixel = (y1.max(y2) * screen_width + x1.min(x2)) * 4;

    let border_width = 3;
    let border = vec![255; (width + border_width) * 4];
    for i in 0..border_width {
        let y_offset = i * screen_width * 4;
        pixels[top_left_pixel + y_offset..top_left_pixel + y_offset + (width + border_width) * 4]
            .copy_from_slice(&border);
        pixels
            [bottom_left_pixel - y_offset..bottom_left_pixel - y_offset + (width + border_width) * 4]
            .copy_from_slice(&border);
    }

    let border = vec![255; border_width * 4];
    for y in y1.min(y2)..y1.max(y2) {
        let pixel = (y * screen_width + x1.min(x2)) * 4;
        pixels[pixel..pixel + (border_width * 4)].copy_from_slice(&border);
        pixels[pixel + (width * 4)..pixel + (width * 4) + (border_width * 4)]
            .copy_from_slice(&border);
    }
}

fn patterned_frame(len: usize) -> Vec<u8> {
    (0..len).map(|i| (i * 7 % 251) as u8).collect()
}

#[test]
fn matches_the_reference_drawing() {
    let screen_width = 20usize;
    let screen_height = 20usize;
    let len = screen_width * screen_height * 4;

    let cases = [
        // (x1, y1, x2, y2, box width)
        (3usize, 4usize, 10usize, 15usize, 7usize),
        (10, 15, 3, 4, 7), // corners swapped
        (0, 2, 5, 8, 5),   // hugging the top-left corner
        (2, 6, 2, 9, 0),   // degenerate: zero-width box
        (4, 5, 9, 5, 5),   // degenerate: zero-height box
    ];
    for (x1, y1, x2, y2, box_width) in cases {
        let mut expected = patterned_frame(len);
        reference_zoom_box(&mut expected, x1, y1, x2, y2, box_width, screen_width);

        let mut actual = patterned_frame(len);
        draw_zoom_box(&mut actual, x1, y1, x2, y2, box_width, screen_width);

        assert_eq!(expected, actual, "case ({x1},{y1})-({x2},{y2}) width {box_width}");
    }
}

#[test]
fn drawing_twice_changes_nothing_more() {
    let screen_width = 20usize;
    let len = screen_width * 20 * 4;
    let (x1, y1, x2, y2, box_width) = (3usize, 4usize, 10usize, 15usize, 7usize);

    let mut once = patterned_frame(len);
    draw_zoom_box(&mut once, x1, y1, x2, y2, box_width, screen_width);
    let mut twice = once.clone();
    draw_zoom_box(&mut twice, x1, y1, x2, y2, box_width, screen_width);

    assert_eq!(once, twice);
}

#[test]
fn drawing_is_deterministic() {
    let screen_width = 20usize;
    let len = screen_width * 20 * 4;
    let (x1, y1, x2, y2, box_width) = (3usize, 4usize, 10usize, 15usize, 7usize);

    let mut a = patterned_frame(len);
    let mut b = patterned_frame(len);
    draw_zoom_box(&mut a, x1, y1, x2, y2, box_width, screen_width);
    draw_zoom_box(&mut b, x1, y1, x2, y2, box_width, screen_width);

    assert_eq!(a, b);
}

#[test]
fn border_bytes_become_white_and_others_keep_their_value() {
    let screen_width = 16usize;
    let len = screen_width * 14 * 4;
    let (x1, y1, x2, y2, box_width) = (2usize, 3usize, 9usize, 10usize, 7usize);

    let mut frame = patterned_frame(len);
    draw_zoom_box(&mut frame, x1, y1, x2, y2, box_width, screen_width);

    // a byte of the top border band (rows 3, 4 and 5)
    assert_eq!(frame[(3 * screen_width + 2) * 4], 255);
    // a byte of the bottom border band (rows 8, 9 and 10)
    assert_eq!(frame[(10 * screen_width + 5) * 4 + 2], 255);
    // a byte of the left border run on a middle row (columns 2 to 4)
    assert_eq!(frame[(6 * screen_width + 3) * 4 + 1], 255);
    // a byte of the right border run on a middle row (columns 9 to 11)
    assert_eq!(frame[(6 * screen_width + 2 + 7) * 4], 255);
    // a byte inside the box, untouched
    let inside = (6 * screen_width + 6) * 4;
    assert_eq!(frame[inside], (inside * 7 % 251) as u8);
    // a byte well outside the box, untouched
    let outside = (13 * screen_width + 14) * 4;
    assert_eq!(frame[outside], (outside * 7 % 251) as u8);
    // the buffer kept its length
    assert_eq!(frame.len(), len);
}
