use screen_mirror::frame::{Frame, FrameError};

#[test]
fn frame_accepts_exact_length() {
    let f = Frame::new(2, 3, vec![7u8; 24]).unwrap();
    assert_eq!(f.width(), 2);
    assert_eq!(f.height(), 3);
    assert_eq!(f.bytes().len(), 24);
}

#[test]
fn frame_rejects_short_buffer() {
    assert_eq!(Frame::new(2, 3, vec![0u8; 23]), Err(FrameError::LengthMismatch));
}

#[test]
fn frame_rejects_long_buffer() {
    assert_eq!(Frame::new(1, 1, vec![0u8; 5]), Err(FrameError::LengthMismatch));
}

#[test]
fn frame_empty_dimensions() {
    let f = Frame::new(0, 0, Vec::new()).unwrap();
    assert_eq!(f.bytes().len(), 0);
    assert_eq!(f.pixel(0, 0), None);
}

#[test]
fn frame_rejects_overflowing_size() {
    assert_eq!(Frame::new(u32::MAX, u32::MAX, Vec::new()), Err(FrameError::LengthMismatch));
}

#[test]
fn frame_pixel_reads_row_major() {
    let bytes: Vec<u8> = (0u8..16).collect();
    let f = Frame::new(2, 2, bytes).unwrap();
    assert_eq!(f.pixel(0, 0), Some((0, 1, 2, 3)));
    assert_eq!(f.pixel(1, 0), Some((4, 5, 6, 7)));
    assert_eq!(f.pixel(0, 1), Some((8, 9, 10, 11)));
    assert_eq!(f.pixel(1, 1), Some((12, 13, 14, 15)));
    assert_eq!(f.pixel(2, 0), None);
    assert_eq!(f.pixel(0, 2), None);
}

#[test]
fn frame_filled_is_one_colour() {
    let f = Frame::filled(3, 2, (255, 0, 0, 255)).unwrap();
    assert_eq!(f.bytes().len(), 24);
    for y in 0..2 {
        for x in 0..3 {
            assert_eq!(f.pixel(x, y), Some((255, 0, 0, 255)));
        }
    }
}
