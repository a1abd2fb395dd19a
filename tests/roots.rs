use raytracer::roots::select_root;

#[test]
fn nearer_root_in_range_is_taken() {
    assert_eq!(select_root(2, 8, &(0..100)), Some(2));
    assert_eq!(select_root(0, 8, &(0..100)), Some(0));
}

#[test]
fn root_behind_start_is_skipped() {
    assert_eq!(select_root(-3, 4, &(0..100)), Some(4));
    assert_eq!(select_root(-3.5f32, 1.25f32, &(0.001..f32::INFINITY)), Some(1.25));
}

#[test]
fn root_at_end_is_excluded() {
    assert_eq!(select_root(5, 10, &(0..10)), Some(5));
    assert_eq!(select_root(10, 12, &(0..10)), None);
    assert_eq!(select_root(-2, 10, &(0..10)), None);
}

#[test]
fn no_root_in_range() {
    assert_eq!(select_root(-5, -1, &(0..10)), None);
    assert_eq!(select_root(-1.0f32, -0.5f32, &(0.001..f32::INFINITY)), None);
}

#[test]
fn sphere_ahead_of_ray_hit_at_distance_minus_radius() {
    // A unit-direction ray at a sphere of radius 2 whose center is 10 away: roots 8 and 12.
    let (distance, radius) = (10.0f32, 2.0f32);
    let half_b = -distance;
    let c = distance * distance - radius * radius;
    let sqrtd = (half_b * half_b - c).sqrt();
    let root = select_root(-half_b - sqrtd, -half_b + sqrtd, &(0.001..f32::INFINITY));
    assert_eq!(root, Some(8.0));
}
