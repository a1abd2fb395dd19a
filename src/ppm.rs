use vstd::prelude::*;

verus! {

/// One pixel as three 8-bit channels, ready to be written out.
#[derive(Debug, Clone, Copy, PartialEq, Eq)]
pub struct Rgb {
    pub r: u8,
    pub g: u8,
    pub b: u8,
}

/// The ASCII digits of `n` in base ten, most significant first, without leading zeros.
pub open spec fn decimal(n: nat) -> Seq<u8>
    decreases n,
{
    if n < 10 {
        seq![(48 + n) as u8]
    } else {
        decimal(n / 10).push((48 + n % 10) as u8)
    }
}

/// `P3`, then `<width> <height>`, then `255`, each on its own line.
pub open spec fn header_bytes(width: nat, height: nat) -> Seq<u8> {
    seq![80u8, 51u8, 10u8] + decimal(width) + seq![32u8] + decimal(height) + seq![
        10u8,
        50u8,
        53u8,
        53u8,
        10u8,
    ]
}

/// `<r> <g> <b>` and a line break.
pub open spec fn pixel_bytes(p: Rgb) -> Seq<u8> {
    decimal(p.r as nat) + seq![32u8] + decimal(p.g as nat) + seq![32u8] + decimal(p.b as nat)
        + seq![10u8]
}

/// The lines of `pixels`, in order.
pub open spec fn pixels_bytes(pixels: Seq<Rgb>) -> Seq<u8>
    decreases pixels.len(),
{
    if pixels.len() == 0 {
        seq![]
    } else {
        pixels_bytes(pixels.drop_last()) + pixel_bytes(pixels.last())
    }
}

/// A whole image in the plain-text triplet format.
pub open spec fn image_bytes(width: nat, height: nat, pixels: Seq<Rgb>) -> Seq<u8> {
    header_bytes(width, height) + pixels_bytes(pixels)
}

/// The number of line breaks in `s`.
pub open spec fn line_breaks(s: Seq<u8>) -> nat
    decreases s.len(),
{
    if s.len() == 0 {
        0
    } else {
        line_breaks(s.drop_last()) + if s.last() == 10u8 {
            1nat
        } else {
            0nat
        }
    }
}

proof fn lemma_line_breaks_concat(a: Seq<u8>, b: Seq<u8>)
    ensures
        line_breaks(a + b) == line_breaks(a) + line_breaks(b),
    decreases b.len(),
{
    if b.len() > 0 {
        assert((a + b).drop_last() =~= a + b.drop_last());
        lemma_line_breaks_concat(a, b.drop_last());
    } else {
        assert(a + b =~= a);
    }
}

proof fn lemma_decimal_has_no_line_break(n: nat)
    ensures
        line_breaks(decimal(n)) == 0,
    decreases n,
{
    if n >= 10 {
        lemma_decimal_has_no_line_break(n / 10);
        assert(decimal(n).drop_last() =~= decimal(n / 10));
    } else {
        reveal_with_fuel(line_breaks, 2);
        assert(decimal(n).drop_last() =~= Seq::<u8>::empty());
    }
}

proof fn lemma_pixel_is_one_line(p: Rgb)
    ensures
        line_breaks(pixel_bytes(p)) == 1,
{
    let sp = seq![32u8];
    lemma_decimal_has_no_line_break(p.r as nat);
    lemma_decimal_has_no_line_break(p.g as nat);
    lemma_decimal_has_no_line_break(p.b as nat);
    reveal_with_fuel(line_breaks, 2);
    assert(sp.drop_last() =~= Seq::<u8>::empty());
    assert(seq![10u8].drop_last() =~= Seq::<u8>::empty());
    let s1 = decimal(p.r as nat) + sp;
    let s2 = s1 + decimal(p.g as nat);
    let s3 = s2 + sp;
    let s4 = s3 + decimal(p.b as nat);
    lemma_line_breaks_concat(decimal(p.r as nat), sp);
    lemma_line_breaks_concat(s1, decimal(p.g as nat));
    lemma_line_breaks_concat(s2, sp);
    lemma_line_breaks_concat(s3, decimal(p.b as nat));
    lemma_line_breaks_concat(s4, seq![10u8]);
}

/// An image of `width` by `height` pixels is written as its three header lines and exactly
/// one line per pixel.
pub proof fn lemma_image_line_count(width: nat, height: nat, pixels: Seq<Rgb>)
    requires
        pixels.len() == width * height,
    ensures
        line_breaks(image_bytes(width, height, pixels)) == 3 + width * height,
{
    lemma_header_is_three_lines(width, height);
    lemma_pixels_line_count(pixels);
    lemma_line_breaks_concat(header_bytes(width, height), pixels_bytes(pixels));
}

proof fn lemma_pixels_line_count(pixels: Seq<Rgb>)
    ensures
        line_breaks(pixels_bytes(pixels)) == pixels.len(),
    decreases pixels.len(),
{
    if pixels.len() > 0 {
        lemma_pixels_line_count(pixels.drop_last());
        lemma_pixel_is_one_line(pixels.last());
        lemma_line_breaks_concat(pixels_bytes(pixels.drop_last()), pixel_bytes(pixels.last()));
    }
}

proof fn lemma_header_is_three_lines(width: nat, height: nat)
    ensures
        line_breaks(header_bytes(width, height)) == 3,
{
    let a = seq![80u8, 51u8, 10u8];
    let sp = seq![32u8];
    let z = seq![10u8, 50u8, 53u8, 53u8, 10u8];
    reveal_with_fuel(line_breaks, 6);
    assert(line_breaks(a) == 1);
    assert(line_breaks(sp) == 0);
    assert(line_breaks(z) == 2);
    lemma_decimal_has_no_line_break(width);
    lemma_decimal_has_no_line_break(height);
    let s1 = a + decimal(width);
    let s2 = s1 + sp;
    let s3 = s2 + decimal(height);
    lemma_line_breaks_concat(a, decimal(width));
    lemma_line_breaks_concat(s1, sp);
    lemma_line_breaks_concat(s2, decimal(height));
    lemma_line_breaks_concat(s3, z);
}

/// Appends the decimal digits of `n` to `out`.
pub fn push_decimal(out: &mut Vec<u8>, n: u64)
    ensures
        final(out)@ == old(out)@ + decimal(n as nat),
    decreases n,
{
    if n >= 10 {
        push_decimal(out, n / 10);
    }
    let digit: u8 = (n % 10) as u8;
    out.push(48u8 + digit);
    assert(final(out)@ =~= old(out)@ + decimal(n as nat));
}

/// The header of an image of `width` by `height` pixels.
pub fn ppm_header(width: u64, height: u64) -> (r: Vec<u8>)
    ensures
        r@ == header_bytes(width as nat, height as nat),
{
    let mut out: Vec<u8> = Vec::new();
    out.push(80u8);
    out.push(51u8);
    out.push(10u8);
    push_decimal(&mut out, width);
    out.push(32u8);
    push_decimal(&mut out, height);
    out.push(10u8);
    out.push(50u8);
    out.push(53u8);
    out.push(53u8);
    out.push(10u8);
    assert(out@ =~= header_bytes(width as nat, height as nat));
    out
}

impl Rgb {
    pub fn new(r: u8, g: u8, b: u8) -> (p: Rgb)
        ensures
            p == (Rgb { r, g, b }),
    {
        Rgb { r, g, b }
    }

    /// Appends this pixel's line to `out`.
    pub fn write_ppm(&self, out: &mut Vec<u8>)
        ensures
            final(out)@ == old(out)@ + pixel_bytes(*self),
    {
        push_decimal(out, self.r as u64);
        out.push(32u8);
        push_decimal(out, self.g as u64);
        out.push(32u8);
        push_decimal(out, self.b as u64);
        out.push(10u8);
        assert(final(out)@ =~= old(out)@ + pixel_bytes(*self));
    }
}

/// The whole image: the header, then one line per pixel, rows top to bottom and each row
/// left to right.
pub fn encode_ppm(width: u64, height: u64, pixels: &Vec<Rgb>) -> (r: Vec<u8>)
    requires
        pixels@.len() == width * height,
    ensures
        r@ == image_bytes(width as nat, height as nat, pixels@),
{
    let mut out = ppm_header(width, height);
    let mut i: usize = 0;
    while i < pixels.len()
        invariant
            i <= pixels@.len(),
            out@ == header_bytes(width as nat, height as nat) + pixels_bytes(pixels@.take(i as int)),
        decreases pixels@.len() - i,
    {
        let ghost before = out@;
        pixels[i].write_ppm(&mut out);
        proof {
            let t = pixels@.take(i as int + 1);
            assert(t.drop_last() =~= pixels@.take(i as int));
            assert(t.last() == pixels@[i as int]);
        }
        i = i + 1;
    }
    assert(pixels@.take(pixels@.len() as int) =~= pixels@);
    out
}

} // verus!
