use vstd::prelude::*;
use vstd::std_specs::cmp::{PartialOrdIs, PartialOrdSpec};

verus! {

/// Which way a ray leaves the boundary of a transparent material.
#[derive(Debug, Clone, Copy, PartialEq, Eq)]
pub enum Refraction {
    Reflect,
    Refract,
}

/// The choice for a ray whose refracted direction would have sine `bent_sine` (the ratio of
/// refractive indices times the sine of the angle of incidence), with reflectance
/// `reflectance` at that angle and a uniform random `draw`: reflect when no refracted ray
/// exists (`bent_sine > one`) or when the reflectance beats the draw, else refract.
pub open spec fn direction_spec<T: PartialOrd>(bent_sine: T, one: T, reflectance: T, draw: T) -> Refraction {
    if bent_sine.is_gt(&one) || reflectance.is_gt(&draw) {
        Refraction::Reflect
    } else {
        Refraction::Refract
    }
}

/// Chooses between reflection and refraction at a transparent boundary; see `direction_spec`.
pub fn choose_direction<T: PartialOrd>(bent_sine: T, one: T, reflectance: T, draw: T) -> (r: Refraction)
    ensures
        T::obeys_partial_cmp_spec() ==> r == direction_spec(bent_sine, one, reflectance, draw),
{
    let cannot_refract = bent_sine > one;
    let use_reflectance = reflectance > draw;
    if cannot_refract || use_reflectance {
        Refraction::Reflect
    } else {
        Refraction::Refract
    }
}

/// Past the critical angle there is no refracted ray: the ray is reflected whatever the
/// draw and the reflectance.
pub proof fn lemma_total_internal_reflection<T: PartialOrd>(bent_sine: T, one: T)
    requires
        bent_sine.is_gt(&one),
    ensures
        forall|reflectance: T, draw: T|
            #[trigger] direction_spec(bent_sine, one, reflectance, draw) == Refraction::Reflect,
{
}

/// Below the critical angle the ray is refracted exactly when the reflectance does not beat
/// the draw.
pub proof fn lemma_refracts_unless_reflectance_wins<T: PartialOrd>(
    bent_sine: T,
    one: T,
    reflectance: T,
    draw: T,
)
    requires
        !bent_sine.is_gt(&one),
    ensures
        direction_spec(bent_sine, one, reflectance, draw) == Refraction::Refract <==> !reflectance.is_gt(
            &draw,
        ),
{
}

} // verus!
