use raytracer::raster::{pixel_count, pixel_position};

#[test]
fn pixel_count_of_image() {
    assert_eq!(pixel_count(1920, 1080), Some(2_073_600));
    assert_eq!(pixel_count(1, 1), Some(1));
    assert_eq!(pixel_count(0, 7), Some(0));
}

#[test]
fn pixel_count_too_large() {
    assert_eq!(pixel_count(u64::MAX, 2), None);
    assert_eq!(pixel_count(1u64 << 32, 1u64 << 32), None);
}

#[test]
fn pixel_positions_row_by_row() {
    assert_eq!(pixel_position(0, 4), (0, 0));
    assert_eq!(pixel_position(3, 4), (3, 0));
    assert_eq!(pixel_position(4, 4), (0, 1));
    assert_eq!(pixel_position(11, 4), (3, 2));
    assert_eq!(pixel_position(5, 1), (0, 5));
}
