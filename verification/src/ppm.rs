//! The plain-text PPM (`P3`) rendering of an image.

use vstd::prelude::*;
use crate::decimal::{decimal, push_decimal};

verus! {

/// The header line block: magic number, dimensions and maximum channel value.
pub open spec fn ppm_header(width: nat, height: nat) -> Seq<char> {
    "P3\n"@ + decimal(width) + " "@ + decimal(height) + "\n255\n"@
}

/// One pixel's line: its three channel values separated by spaces.
pub open spec fn ppm_pixel_line(p: (u8, u8, u8)) -> Seq<char> {
    decimal(p.0 as nat) + " "@ + decimal(p.1 as nat) + " "@ + decimal(p.2 as nat) + "\n"@
}

/// The lines of all pixels, in order.
pub open spec fn ppm_pixel_lines(pixels: Seq<(u8, u8, u8)>) -> Seq<char>
    decreases pixels.len(),
{
    if pixels.len() == 0 {
        Seq::empty()
    } else {
        ppm_pixel_lines(pixels.drop_last()) + ppm_pixel_line(pixels.last())
    }
}

/// The full PPM text of an image: the header, then one line per pixel.
pub open spec fn ppm_document(pixels: Seq<(u8, u8, u8)>, width: nat, height: nat) -> Seq<char> {
    ppm_header(width, height) + ppm_pixel_lines(pixels)
}

/// The PPM text of the pixels, row-major from the top row, with the given
/// dimensions in the header.
pub fn ppm_text(pixels: &[(u8, u8, u8)], width: u32, height: u32) -> (s: String)
    ensures
        s@ == ppm_document(pixels@, width as nat, height as nat),
{
    let mut s = String::from_str("P3\n");
    push_decimal(&mut s, width);
    s.append(" ");
    push_decimal(&mut s, height);
    s.append("\n255\n");
    let n: usize = pixels.len();
    let mut k: usize = 0;
    assert(pixels@.take(0) == Seq::<(u8, u8, u8)>::empty());
    while k < n
        invariant
            n == pixels@.len(),
            0 <= k <= n,
            s@ == ppm_header(width as nat, height as nat) + ppm_pixel_lines(pixels@.take(k as int)),
        decreases n - k,
    {
        let (r, g, b): (u8, u8, u8) = pixels[k];
        push_decimal(&mut s, r as u32);
        s.append(" ");
        push_decimal(&mut s, g as u32);
        s.append(" ");
        push_decimal(&mut s, b as u32);
        s.append("\n");
        assert(pixels@.take(k + 1).drop_last() == pixels@.take(k as int));
        assert(pixels@.take(k + 1).last() == pixels@[k as int]);
        k = k + 1;
    }
    assert(pixels@.take(n as int) == pixels@);
    s
}

} // verus!
