use vstd::prelude::*;

verus! {

/// Image width used when none, or zero, is given.
pub const DEFAULT_IMAGE_WIDTH: u64 = 100;

/// Samples per pixel used when none, or zero, is given.
pub const DEFAULT_SAMPLES_PER_PIXEL: u32 = 10;

/// Bounce budget used when none, or zero, is given.
pub const DEFAULT_MAX_DEPTH: u32 = 10;

/// The counting parameters of a camera: each one is either unset or a positive number.
/// Setting one to zero unsets it, and an unset one reads as its default.
#[derive(Debug, Clone, Copy)]
pub struct RenderCounts {
    image_width: Option<u64>,
    samples_per_pixel: Option<u32>,
    max_depth: Option<u32>,
}

/// `None` for zero, else the value.
pub open spec fn nonzero_u64(v: u64) -> Option<u64> {
    if v == 0 {
        None
    } else {
        Some(v)
    }
}

/// `None` for zero, else the value.
pub open spec fn nonzero_u32(v: u32) -> Option<u32> {
    if v == 0 {
        None
    } else {
        Some(v)
    }
}

impl RenderCounts {
    /// No count is set to zero.
    pub open spec fn wf(&self) -> bool {
        &&& self.width_spec() != Some(0u64)
        &&& self.samples_spec() != Some(0u32)
        &&& self.depth_spec() != Some(0u32)
    }

    pub closed spec fn width_spec(&self) -> Option<u64> {
        self.image_width
    }

    pub closed spec fn samples_spec(&self) -> Option<u32> {
        self.samples_per_pixel
    }

    pub closed spec fn depth_spec(&self) -> Option<u32> {
        self.max_depth
    }

    /// Nothing set: every count reads as its default.
    pub fn new() -> (r: Self)
        ensures
            r.wf(),
            r.width_spec() == None::<u64>,
            r.samples_spec() == None::<u32>,
            r.depth_spec() == None::<u32>,
    {
        RenderCounts { image_width: None, samples_per_pixel: None, max_depth: None }
    }

    /// Sets the image width; zero unsets it.
    pub fn with_image_width(self, image_width: u64) -> (r: Self)
        requires
            self.wf(),
        ensures
            r.wf(),
            r.width_spec() == nonzero_u64(image_width),
            r.samples_spec() == self.samples_spec(),
            r.depth_spec() == self.depth_spec(),
    {
        let image_width = if image_width == 0 {
            None
        } else {
            Some(image_width)
        };
        RenderCounts { image_width, ..self }
    }

    /// Sets the number of samples per pixel; zero unsets it.
    pub fn with_samples_per_pixel(self, samples_per_pixel: u32) -> (r: Self)
        requires
            self.wf(),
        ensures
            r.wf(),
            r.width_spec() == self.width_spec(),
            r.samples_spec() == nonzero_u32(samples_per_pixel),
            r.depth_spec() == self.depth_spec(),
    {
        let samples_per_pixel = if samples_per_pixel == 0 {
            None
        } else {
            Some(samples_per_pixel)
        };
        RenderCounts { samples_per_pixel, ..self }
    }

    /// Sets the bounce budget of a path; zero unsets it.
    pub fn with_recursion_depth(self, depth: u32) -> (r: Self)
        requires
            self.wf(),
        ensures
            r.wf(),
            r.width_spec() == self.width_spec(),
            r.samples_spec() == self.samples_spec(),
            r.depth_spec() == nonzero_u32(depth),
    {
        let max_depth = if depth == 0 {
            None
        } else {
            Some(depth)
        };
        RenderCounts { max_depth, ..self }
    }

    /// The image width in force: the one set, else the default. Never zero.
    pub fn image_width(&self) -> (r: u64)
        requires
            self.wf(),
        ensures
            r > 0,
            r == match self.width_spec() {
                Some(w) => w,
                None => DEFAULT_IMAGE_WIDTH,
            },
    {
        match self.image_width {
            Some(w) => w,
            None => DEFAULT_IMAGE_WIDTH,
        }
    }

    /// The number of samples per pixel in force: the one set, else the default. Never zero.
    pub fn samples_per_pixel(&self) -> (r: u32)
        requires
            self.wf(),
        ensures
            r > 0,
            r == match self.samples_spec() {
                Some(s) => s,
                None => DEFAULT_SAMPLES_PER_PIXEL,
            },
    {
        match self.samples_per_pixel {
            Some(s) => s,
            None => DEFAULT_SAMPLES_PER_PIXEL,
        }
    }

    /// The bounce budget in force: the one set, else the default. Never zero.
    pub fn max_depth(&self) -> (r: u32)
        requires
            self.wf(),
        ensures
            r > 0,
            r == match self.depth_spec() {
                Some(d) => d,
                None => DEFAULT_MAX_DEPTH,
            },
    {
        match self.max_depth {
            Some(d) => d,
            None => DEFAULT_MAX_DEPTH,
        }
    }
}

impl Default for RenderCounts {
    fn default() -> (r: Self)
        ensures
            r.wf(),
            r.width_spec() == None::<u64>,
            r.samples_spec() == None::<u32>,
            r.depth_spec() == None::<u32>,
    {
        RenderCounts::new()
    }
}

/// The image height from the width divided by the aspect ratio (rounded down by the caller):
/// at least one row.
pub fn image_height(rows: u64) -> (r: u64)
    ensures
        r == (if rows == 0 {
            1
        } else {
            rows
        }),
{
    if rows == 0 {
        1
    } else {
        rows
    }
}

} // verus!
