//! Pixel data of icons.

use vstd::prelude::*;

verus! {

/// Pixels in the order red, green, blue, alpha, from pixels in the order
/// blue, green, red, alpha: of every four bytes the first and the third
/// change places. Bytes beyond the last whole pixel are left out.
pub open spec fn rgba_of(bgra: Seq<u8>) -> Seq<u8> {
    Seq::new(
        (bgra.len() / 4 * 4) as nat,
        |i: int|
            if i % 4 == 0 {
                bgra[i + 2]
            } else if i % 4 == 2 {
                bgra[i - 2]
            } else {
                bgra[i]
            },
    )
}

/// Turns pixels as the operating system draws them into pixels as an image
/// handle takes them.
pub fn bgra_to_rgba(bgra: &[u8]) -> (rgba: Vec<u8>)
    ensures
        rgba@ == rgba_of(bgra@),
{
    let len: usize = bgra.len();
    let pixels: usize = len / 4;
    let mut rgba: Vec<u8> = Vec::new();
    let mut pixel: usize = 0;
    while pixel < pixels
        invariant
            pixel <= pixels,
            len == bgra@.len(),
            pixels == len / 4,
            rgba@ == rgba_of(bgra@).take(4 * pixel),
        decreases pixels - pixel,
    {
        let offset: usize = pixel * 4;
        rgba.push(bgra[offset + 2]);
        rgba.push(bgra[offset + 1]);
        rgba.push(bgra[offset]);
        rgba.push(bgra[offset + 3]);
        pixel += 1;
    }
    rgba
}

} // verus!
