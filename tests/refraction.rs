use raytracer::refraction::{choose_direction, Refraction};

#[test]
fn past_critical_angle_always_reflects() {
    for draw in [0.0f32, 0.25, 0.5, 0.999] {
        assert_eq!(choose_direction(1.2f32, 1.0, 0.0, draw), Refraction::Reflect);
        assert_eq!(choose_direction(1.2f32, 1.0, 0.9, draw), Refraction::Reflect);
    }
}

#[test]
fn square_on_refracts_unless_reflectance_beats_draw() {
    // Glass, square on: sine 0 and Schlick reflectance 0.04.
    assert_eq!(choose_direction(0.0f32, 1.0, 0.04, 0.5), Refraction::Refract);
    assert_eq!(choose_direction(0.0f32, 1.0, 0.04, 0.04), Refraction::Refract);
    assert_eq!(choose_direction(0.0f32, 1.0, 0.04, 0.01), Refraction::Reflect);
}

#[test]
fn at_critical_angle_refraction_still_possible() {
    assert_eq!(choose_direction(100, 100, 3, 7), Refraction::Refract);
    assert_eq!(choose_direction(101, 100, 3, 7), Refraction::Reflect);
    assert_eq!(choose_direction(100, 100, 8, 7), Refraction::Reflect);
}
