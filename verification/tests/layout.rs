use mandelbrot::layout::{buffer_len, pixel_offset, CHANNELS};

#[test]
fn buffer_len_is_width_times_height_times_four() {
    assert_eq!(buffer_len(100, 100), Some(40_000));
    assert_eq!(buffer_len(800, 800), Some(2_560_000));
    assert_eq!(buffer_len(3, 2), Some(24));
    assert_eq!(buffer_len(1, 1), Some(CHANNELS));
}

#[test]
fn buffer_len_of_empty_image_is_zero() {
    assert_eq!(buffer_len(0, 0), Some(0));
    assert_eq!(buffer_len(0, 7), Some(0));
    assert_eq!(buffer_len(7, 0), Some(0));
}

#[test]
fn buffer_len_beyond_usize_is_none() {
    assert_eq!(buffer_len(u32::MAX, u32::MAX), None);
    let big = (u32::MAX as u128) * 4 * 2;
    if big <= usize::MAX as u128 {
        assert_eq!(buffer_len(u32::MAX, 2), Some(big as usize));
    } else {
        assert_eq!(buffer_len(u32::MAX, 2), None);
    }
}

#[test]
fn pixel_offset_follows_row_major_formula() {
    assert_eq!(pixel_offset(100, 100, 50, 50), Some(20_200));
    assert_eq!(pixel_offset(100, 100, 0, 0), Some(0));
    assert_eq!(pixel_offset(100, 100, 99, 99), Some(39_996));
    assert_eq!(pixel_offset(3, 2, 2, 1), Some(20));
    assert_eq!(pixel_offset(3, 2, 0, 1), Some(12));
}

#[test]
fn pixel_offset_outside_image_is_none() {
    assert_eq!(pixel_offset(100, 100, 100, 0), None);
    assert_eq!(pixel_offset(100, 100, 0, 100), None);
    assert_eq!(pixel_offset(0, 0, 0, 0), None);
    assert_eq!(pixel_offset(5, 0, 1, 0), None);
}

#[test]
fn pixel_offset_of_oversized_image_is_none() {
    assert_eq!(pixel_offset(u32::MAX, u32::MAX, 1, 1), None);
}

#[test]
fn pixels_occupy_disjoint_ranges_that_cover_the_buffer() {
    let width = 5;
    let height = 4;
    let len = buffer_len(width, height).unwrap();
    let mut owner = vec![0u32; len];
    for y in 0..height {
        for x in 0..width {
            let offset = pixel_offset(width, height, x, y).unwrap();
            assert!(offset + 4 <= len);
            for k in 0..4 {
                owner[offset + k] += 1;
            }
        }
    }
    assert!(owner.iter().all(|&n| n == 1));
}
