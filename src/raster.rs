use vstd::prelude::*;

verus! {

/// The number of pixels of a `width` by `height` image, or `None` when it does not fit in
/// a `usize`.
pub fn pixel_count(width: u64, height: u64) -> (r: Option<usize>)
    ensures
        match r {
            Some(n) => n == width * height,
            None => width * height > usize::MAX,
        },
{
    match width.checked_mul(height) {
        Some(n) => {
            if n <= usize::MAX as u64 {
                Some(n as usize)
            } else {
                None
            }
        },
        None => None,
    }
}

/// The column and row of the pixel at `index` when pixels are laid out row by row, top to
/// bottom, each row left to right.
pub fn pixel_position(index: u64, width: u64) -> (r: (u64, u64))
    requires
        width > 0,
    ensures
        r.0 == index % width,
        r.1 == index / width,
        r.0 < width,
        r.1 * width + r.0 == index,
{
    let i = index % width;
    let j = index / width;
    proof {
        vstd::arithmetic::div_mod::lemma_fundamental_div_mod(index as int, width as int);
    }
    (i, j)
}

/// Every index below `width * height` falls on a column and a row inside a `width` by
/// `height` image.
pub proof fn lemma_position_in_image(index: u64, width: u64, height: u64)
    requires
        width > 0,
        index < width * height,
    ensures
        index % width < width,
        index / width < height,
{
    vstd::arithmetic::div_mod::lemma_div_is_ordered(index as int, (width * height) as int - 1, width as int);
    vstd::arithmetic::div_mod::lemma_div_multiples_vanish_fancy(height as int - 1, width as int - 1, width as int);
    assert((width * height) as int - 1 == (height as int - 1) * width + (width as int - 1)) by (nonlinear_arith)
        requires width > 0, height > 0;
}

} // verus!
