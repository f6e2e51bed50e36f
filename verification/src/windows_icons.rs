//! The pixels of an icon that the operating system hands out: how many
//! bytes they take, and the order of their colours.

use vstd::prelude::*;

verus! {

/// The red and the blue byte of every pixel of `pixels` changed places.
/// A pixel is four bytes; bytes after the last whole pixel stay as they
/// are.
pub open spec fn red_blue_swapped(pixels: Seq<u8>) -> Seq<u8> {
    Seq::new(
        pixels.len(),
        |i: int|
            if i >= (pixels.len() / 4) * 4 {
                pixels[i]
            } else if i % 4 == 0 {
                pixels[i + 2]
            } else if i % 4 == 2 {
                pixels[i - 2]
            } else {
                pixels[i]
            },
    )
}

/// Turns pixels that come blue first into pixels that come red first.
pub fn swap_red_blue(pixels: &mut Vec<u8>)
    ensures
        final(pixels)@ == red_blue_swapped(old(pixels)@),
{
    let whole: usize = pixels.len() / 4;
    let mut pixel: usize = 0;
    while pixel < whole
        invariant
            0 <= pixel <= whole,
            whole == old(pixels)@.len() / 4,
            pixels@.len() == old(pixels)@.len(),
            pixels@.len() <= usize::MAX,
            forall|i: int| 0 <= i < 4 * pixel ==> pixels@[i] == red_blue_swapped(old(pixels)@)[i],
            forall|i: int| 4 * pixel <= i < pixels@.len() ==> pixels@[i] == old(pixels)@[i],
        decreases whole - pixel,
    {
        assert(4 * pixel + 3 < pixels@.len()) by {
            assert(4 * (old(pixels)@.len() / 4) <= old(pixels)@.len());
        }
        let at: usize = 4 * pixel;
        let blue = pixels[at];
        let red = pixels[at + 2];
        pixels[at] = red;
        pixels[at + 2] = blue;
        pixel = pixel + 1;
    }
    assert(pixels@ =~= red_blue_swapped(old(pixels)@));
}

/// The number of bytes that the pixels of an icon of this size take, four
/// for each, or `None` if that is more than can be counted.
pub fn pixel_buffer_len(width: u32, height: u32) -> (len: Option<usize>)
    ensures
        match len {
            Some(len) => len == width * height * 4,
            None => width * height * 4 > usize::MAX,
        },
{
    assert(width * height * 4 <= 0xffff_ffff * 0xffff_ffff * 4) by (nonlinear_arith)
        requires
            width <= 0xffff_ffff,
            height <= 0xffff_ffff,
    ;
    let bytes: u128 = (width as u128) * (height as u128) * 4;
    if bytes > usize::MAX as u128 {
        None
    } else {
        Some(bytes as usize)
    }
}

} // verus!
