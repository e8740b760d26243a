//! The boundary adapter's owned image buffer: a format-tagged pixel
//! buffer built from raw bytes, with its metadata queries, byte export
//! and 90-degree rotation.

use vstd::prelude::*;

verus! {

use crate::rotation::lemma_rotated90_pixel;
use crate::rotation::rotated90;

/// The pixel layout of an image buffer: 8-bit channels, one per pixel
/// (gray), three (RGB) or four (RGBA).
#[derive(Clone, Copy, Debug, PartialEq, Eq, Structural)]
pub enum PixelFormat {
    Gray8,
    Rgb8,
    Rgba8,
}

/// Bytes per pixel of a format.
pub open spec fn channels_of(format: PixelFormat) -> int {
    match format {
        PixelFormat::Gray8 => 1,
        PixelFormat::Rgb8 => 3,
        PixelFormat::Rgba8 => 4,
    }
}

/// The format that an accepted channel count (1, 3 or 4) is stored as.
pub open spec fn format_for(channels: int) -> PixelFormat {
    if channels == 1 {
        PixelFormat::Gray8
    } else if channels == 3 {
        PixelFormat::Rgb8
    } else {
        PixelFormat::Rgba8
    }
}

/// An owned, format-tagged pixel buffer. Pixels are stored row-major,
/// channel-interleaved, top row first.
pub struct RustImage {
    pub format: PixelFormat,
    pub width: u32,
    pub height: u32,
    pub data: Vec<u8>,
}

/// Image metadata: a plain (width, height, channel-count) triple.
#[derive(Clone, Copy, Debug, PartialEq, Eq, Structural)]
pub struct ImageInfo {
    pub width: u32,
    pub height: u32,
    pub channels: u32,
}

impl RustImage {
    /// The buffer invariant: the stored byte length is exactly
    /// width * height * channels, and a buffer with a zero dimension is
    /// the designated empty sentinel (both dimensions zero, tagged RGBA
    /// by convention, no bytes).
    pub open spec fn wf(self) -> bool {
        &&& self.data@.len() == self.width as int * self.height as int * channels_of(self.format)
        &&& (self.width == 0 || self.height == 0) ==> (self.width == 0 && self.height == 0
            && self.format == PixelFormat::Rgba8)
    }

    /// True of the designated empty sentinel.
    pub open spec fn is_sentinel(self) -> bool {
        &&& self.width == 0
        &&& self.height == 0
        &&& self.format == PixelFormat::Rgba8
        &&& self.data@.len() == 0
    }

    /// The empty sentinel: the "no image" value.
    pub fn empty() -> (image: Self)
        ensures
            image.wf(),
            image.is_sentinel(),
    {
        RustImage { format: PixelFormat::Rgba8, width: 0, height: 0, data: Vec::new() }
    }

    /// Wrap an owned byte store whose length matches the declared
    /// dimensions and format.
    pub fn new(format: PixelFormat, width: u32, height: u32, data: Vec<u8>) -> (image: Self)
        requires
            data@.len() == width as int * height as int * channels_of(format),
            (width == 0 || height == 0) ==> (width == 0 && height == 0 && format
                == PixelFormat::Rgba8),
        ensures
            image.wf(),
            image.format == format,
            image.width == width,
            image.height == height,
            image.data@ == data@,
    {
        RustImage { format, width, height, data }
    }

    /// Image dimensions as (width, height).
    pub fn dimensions(&self) -> (dims: (u32, u32))
        ensures
            dims.0 == self.width,
            dims.1 == self.height,
    {
        (self.width, self.height)
    }

    /// Number of channels per pixel, derived from the format tag.
    pub fn channel_count(&self) -> (channels: u32)
        ensures
            channels == channels_of(self.format),
    {
        match self.format {
            PixelFormat::Gray8 => 1,
            PixelFormat::Rgb8 => 3,
            PixelFormat::Rgba8 => 4,
        }
    }

    /// Check if the image is empty (width == 0 or height == 0).
    pub fn is_empty(&self) -> (empty: bool)
        ensures
            empty == (self.width == 0 || self.height == 0),
    {
        self.width == 0 || self.height == 0
    }
}

/// Build an image buffer from an owned copy of raw pixel bytes.
///
/// A zero width or height yields the empty sentinel, whatever the other
/// arguments hold. Otherwise the channel count must be 1, 3 or 4 and the
/// byte length must match the dimensions exactly; violating that is a
/// caller contract violation, ruled out by the precondition.
pub fn image_from_bytes(pixels: Vec<u8>, width: u32, height: u32, channels: u32) -> (image: Box<
    RustImage,
>)
    requires
        width > 0 && height > 0 ==> ((channels == 1 || channels == 3 || channels == 4) && pixels@.len()
            == width as int * height as int * channels as int),
    ensures
        image.wf(),
        (width == 0 || height == 0) ==> image.is_sentinel(),
        width > 0 && height > 0 ==> (image.width == width && image.height == height
            && image.format == format_for(channels as int) && image.data@ == pixels@),
{
    if width == 0 || height == 0 {
        return Box::new(RustImage::empty());
    }
    let format = if channels == 1 {
        PixelFormat::Gray8
    } else if channels == 3 {
        PixelFormat::Rgb8
    } else {
        PixelFormat::Rgba8
    };
    Box::new(RustImage::new(format, width, height, pixels))
}

/// Build an image buffer from raw pixel bytes, rejecting malformed input
/// instead of requiring it away: the result is `None` exactly when the
/// dimensions are positive but the channel count is unsupported or the
/// byte length does not match them.
pub fn try_image_from_bytes(pixels: Vec<u8>, width: u32, height: u32, channels: u32) -> (result:
    Option<Box<RustImage>>)
    ensures
        (width == 0 || height == 0) ==> (result matches Some(image) && image.wf()
            && image.is_sentinel()),
        (width > 0 && height > 0 && (channels == 1 || channels == 3 || channels == 4)
            && pixels@.len() == width as int * height as int * channels as int) ==> (result
            matches Some(image) && image.wf() && image.width == width && image.height == height
            && image.format == format_for(channels as int) && image.data@ == pixels@),
        (width > 0 && height > 0 && !((channels == 1 || channels == 3 || channels == 4)
            && pixels@.len() == width as int * height as int * channels as int)) ==> result
            is None,
{
    if width == 0 || height == 0 {
        return Some(image_from_bytes(pixels, width, height, channels));
    }
    if !(channels == 1 || channels == 3 || channels == 4) {
        return None;
    }
    let actual: usize = pixels.len();
    let wh: Option<usize> = (width as usize).checked_mul(height as usize);
    match wh {
        Some(n) => {
            let whc: Option<usize> = n.checked_mul(channels as usize);
            match whc {
                Some(expected) => {
                    if expected == actual {
                        Some(image_from_bytes(pixels, width, height, channels))
                    } else {
                        None
                    }
                },
                None => {
                    assert(pixels@.len() < width as int * height as int * channels as int);
                    None
                },
            }
        },
        None => {
            assert(width as int * height as int <= width as int * height as int * channels as int)
                by (nonlinear_arith)
                requires
                    channels >= 1;
            assert(pixels@.len() < width as int * height as int * channels as int);
            None
        },
    }
}

/// Extract the raw pixel bytes: an exact copy of the stored buffer, in
/// row-major, channel-interleaved order; the empty sentinel exports a
/// zero-length sequence.
pub fn image_to_bytes(image: &RustImage) -> (bytes: Vec<u8>)
    requires
        image.wf(),
    ensures
        bytes@ == image.data@,
{
    if image.is_empty() {
        return Vec::new();
    }
    let mut bytes: Vec<u8> = Vec::new();
    let mut i: usize = 0;
    while i < image.data.len()
        invariant
            i <= image.data.len(),
            bytes@ == image.data@.take(i as int),
        decreases image.data.len() - i,
    {
        bytes.push(image.data[i]);
        i = i + 1;
    }
    assert(image.data@.take(image.data@.len() as int) =~= image.data@);
    bytes
}

/// Image metadata: dimensions and channel count of the format tag (the
/// empty sentinel reports four channels, RGBA by convention).
pub fn get_image_info(image: &RustImage) -> (info: ImageInfo)
    ensures
        info.width == image.width,
        info.height == image.height,
        info.channels == channels_of(image.format),
{
    let dims = image.dimensions();
    ImageInfo { width: dims.0, height: dims.1, channels: image.channel_count() }
}

/// Check if the image is empty (width == 0 or height == 0): the way to
/// tell the "no result" sentinel from a real image.
pub fn is_image_empty(image: &RustImage) -> (empty: bool)
    ensures
        empty == (image.width == 0 || image.height == 0),
{
    image.is_empty()
}

/// Rotate the image 90 degrees clockwise into a new, independently owned
/// buffer: width and height swap, the format tag is preserved, and the
/// pixel grid is permuted as `rotated90` states. The source is left
/// unmodified; the empty sentinel rotates to itself.
#[verifier::loop_isolation(false)]
pub fn rotate90(image: &RustImage) -> (rotated: Box<RustImage>)
    requires
        image.wf(),
    ensures
        rotated.wf(),
        rotated.format == image.format,
        rotated.width == image.height,
        rotated.height == image.width,
        rotated.data@ == rotated90(
            image.data@,
            image.width as int,
            image.height as int,
            channels_of(image.format),
        ),
{
    let w: usize = image.width as usize;
    let h: usize = image.height as usize;
    let c: usize = image.channel_count() as usize;
    let total: usize = image.data.len();
    let ghost rot = rotated90(image.data@, w as int, h as int, c as int);
    proof {
        assert(w as int * h as int * c as int == h as int * w as int * c as int)
            by (nonlinear_arith);
    }
    let mut out: Vec<u8> = Vec::new();
    let mut y: usize = 0;
    while y < w
        invariant
            image.wf(),
            w == image.width,
            h == image.height,
            c == channels_of(image.format),
            rot == rotated90(image.data@, w as int, h as int, c as int),
            rot.len() == h as int * w as int * c as int,
            image.data@.len() == h as int * w as int * c as int,
            y <= w,
            out@.len() == y as int * h as int * c as int,
            forall|i: int| 0 <= i < out@.len() ==> out@[i] == rot[i],
        decreases w - y,
    {
        let mut x: usize = 0;
        while x < h
            invariant
                image.wf(),
                w == image.width,
                h == image.height,
                c == channels_of(image.format),
                rot == rotated90(image.data@, w as int, h as int, c as int),
                rot.len() == h as int * w as int * c as int,
                image.data@.len() == h as int * w as int * c as int,
                y < w,
                x <= h,
                out@.len() == (y as int * h as int + x as int) * c as int,
                forall|i: int| 0 <= i < out@.len() ==> out@[i] == rot[i],
            decreases h - x,
        {
            let mut k: usize = 0;
            while k < c
                invariant
                    image.wf(),
                    w == image.width,
                    h == image.height,
                    c == channels_of(image.format),
                    rot == rotated90(image.data@, w as int, h as int, c as int),
                    rot.len() == h as int * w as int * c as int,
                    image.data@.len() == h as int * w as int * c as int,
                    y < w,
                    x < h,
                    k <= c,
                    out@.len() == (y as int * h as int + x as int) * c as int + k as int,
                    forall|i: int| 0 <= i < out@.len() ==> out@[i] == rot[i],
                decreases c - k,
            {
                proof {
                    assert((((h as int) - 1 - (x as int)) * (w as int) + (y as int) < (h as int)
                        * (w as int)) && ((((h as int) - 1 - (x as int)) * (w as int) + (y as int))
                        * (c as int) + (k as int) < (h as int) * (w as int) * (c as int)) && ((
                    h as int) * (w as int) <= (h as int) * (w as int) * (c as int)) && (((y as int)
                        * (h as int) + (x as int)) * (c as int) + (k as int) < (h as int) * (
                    w as int) * (c as int))) by (nonlinear_arith)
                        requires
                            x < h,
                            y < w,
                            k < c;
                    lemma_rotated90_pixel(
                        image.data@,
                        w as int,
                        h as int,
                        c as int,
                        x as int,
                        y as int,
                        k as int,
                    );
                }
                let src: usize = ((h - 1 - x) * w + y) * c + k;
                out.push(image.data[src]);
                k = k + 1;
            }
            proof {
                assert((y as int * h as int + x as int) * c as int + c as int == (y as int
                    * h as int + x as int + 1) * c as int) by (nonlinear_arith);
            }
            x = x + 1;
        }
        proof {
            assert((y as int * h as int + h as int) * c as int == (y as int + 1) * h as int
                * c as int) by (nonlinear_arith);
        }
        y = y + 1;
    }
    proof {
        assert(out@ =~= rot);
    }
    Box::new(RustImage::new(image.format, image.height, image.width, out))
}

} // verus!
