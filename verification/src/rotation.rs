//! The mathematical model of the 90-degree clockwise rotation of a
//! row-major, channel-interleaved pixel buffer.

use vstd::prelude::*;

verus! {

use vstd::arithmetic::div_mod::lemma_fundamental_div_mod_converse;

/// The byte at channel `k` of the pixel in column `x`, row `y` of a
/// row-major, channel-interleaved buffer that is `w` pixels wide with
/// `c` channels per pixel.
pub open spec fn pixel_byte(data: Seq<u8>, w: int, c: int, x: int, y: int, k: int) -> u8 {
    data[(y * w + x) * c + k]
}

/// The buffer obtained by rotating a `w`-by-`h` buffer with `c` channels
/// per pixel 90 degrees clockwise. The rotated grid is `h` pixels wide
/// and `w` pixels tall, and its pixel at (x, y) is the source pixel at
/// (y, h - 1 - x).
pub open spec fn rotated90(data: Seq<u8>, w: int, h: int, c: int) -> Seq<u8> {
    Seq::new((h * w * c) as nat, |i: int| {
        let k = i % c;
        let p = i / c;
        let x = p % h;
        let y = p / h;
        data[((h - 1 - x) * w + y) * c + k]
    })
}

/// Reading the rotated buffer pixel by pixel: channel `k` of the pixel at
/// (x, y) of the rotation is channel `k` of the source pixel at
/// (y, h - 1 - x).
pub proof fn lemma_rotated90_pixel(data: Seq<u8>, w: int, h: int, c: int, x: int, y: int, k: int)
    requires
        0 <= x < h,
        0 <= y < w,
        0 <= k < c,
    ensures
        rotated90(data, w, h, c).len() == h * w * c,
        pixel_byte(rotated90(data, w, h, c), h, c, x, y, k) == pixel_byte(
            data,
            w,
            c,
            y,
            h - 1 - x,
            k,
        ),
{
    let i: int = (y * h + x) * c + k;
    assert((0 <= (y * h + x) * c + k) && ((y * h + x) * c + k < h * w * c)) by (nonlinear_arith)
        requires
            0 <= x < h,
            0 <= y < w,
            0 <= k < c;
    lemma_fundamental_div_mod_converse(i, c, y * h + x, k);
    lemma_fundamental_div_mod_converse(y * h + x, h, y, x);
    assert(rotated90(data, w, h, c)[i] == data[((h - 1 - x) * w + y) * c + k]);
}

/// Rotating twice is the 180-degree turn: on a `w`-by-`h` buffer the
/// result has the source's length, and channel `k` of its pixel at
/// (x, y) is channel `k` of the source pixel at (w - 1 - x, h - 1 - y).
pub proof fn lemma_rotate90_twice(data: Seq<u8>, w: int, h: int, c: int, x: int, y: int, k: int)
    requires
        data.len() == w * h * c,
        0 <= x < w,
        0 <= y < h,
        0 <= k < c,
    ensures
        rotated90(rotated90(data, w, h, c), h, w, c).len() == data.len(),
        pixel_byte(rotated90(rotated90(data, w, h, c), h, w, c), w, c, x, y, k) == pixel_byte(
            data,
            w,
            c,
            w - 1 - x,
            h - 1 - y,
            k,
        ),
{
    let once = rotated90(data, w, h, c);
    lemma_rotated90_pixel(once, h, w, c, x, y, k);
    lemma_rotated90_pixel(data, w, h, c, y, w - 1 - x, k);
}

} // verus!
