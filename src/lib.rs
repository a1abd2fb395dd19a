//! The decisions of a path tracer that renders spheres to a plain-text image: the range of
//! ray parameters a hit is accepted in, the choice of a sphere's root and of the nearest hit
//! in a scene, the choice between reflection and refraction at glass, the bounce budget of a
//! path, the image's counts and pixel layout, and the bytes of the image file.
use vstd::prelude::*;

pub mod closest;
pub mod path;
pub mod ppm;
pub mod raster;
pub mod refraction;
pub mod roots;
pub mod settings;
pub mod util;

verus! {

} // verus!
