use raytracer::util::Range;

#[test]
fn range_new_keeps_bounds() {
    let r = Range::new(2, 7);
    assert_eq!(r.start, 2);
    assert_eq!(r.end, 7);
}

#[test]
fn range_contains_is_inclusive() {
    let r = Range::new(2, 7);
    assert!(r.contains(2));
    assert!(r.contains(5));
    assert!(r.contains(7));
    assert!(!r.contains(1));
    assert!(!r.contains(8));
}

#[test]
fn range_clamp_moves_value_inside() {
    let r = Range::new(-3i64, 3i64);
    assert_eq!(r.clamp(-10), -3);
    assert_eq!(r.clamp(10), 3);
    assert_eq!(r.clamp(0), 0);
    assert_eq!(r.clamp(3), 3);
}

#[test]
fn range_clamp_intensity_interval() {
    let intensity: Range<f32> = Range::new(0.0, 0.999);
    assert_eq!(intensity.clamp(1.5), 0.999);
    assert_eq!(intensity.clamp(-0.25), 0.0);
    assert_eq!(intensity.clamp(0.5), 0.5);
    assert_eq!((256.0 * intensity.clamp(2.0)) as u8, 255);
}

#[test]
fn range_from_std_range() {
    let r: Range<u32> = Range::from(4..9);
    assert_eq!(r.start, 4);
    assert_eq!(r.end, 9);
    assert!(r.contains(9));
}
