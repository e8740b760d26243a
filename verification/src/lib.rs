//! A boundary adapter for raw pixel buffers: an owned, format-tagged image
//! buffer that can be built from raw bytes, queried for its metadata,
//! exported back to bytes, and rotated 90 degrees clockwise.

use vstd::prelude::*;

pub mod buffer;
pub mod rotation;

pub use buffer::ImageInfo;
pub use buffer::PixelFormat;
pub use buffer::RustImage;
pub use buffer::image_from_bytes;
pub use buffer::image_to_bytes;
pub use buffer::get_image_info;
pub use buffer::is_image_empty;
pub use buffer::rotate90;
pub use buffer::try_image_from_bytes;

verus! {

use buffer::channels_of;
use rotation::rotated90;

/// Get image dimensions as (width, height).
pub fn image_dimensions(image: &RustImage) -> (dims: (u32, u32))
    ensures
        dims.0 == image.width,
        dims.1 == image.height,
{
    image.dimensions()
}

/// Rotate an image 90 degrees clockwise, leaving the source unmodified.
pub fn rotate_image_90(image: &RustImage) -> (rotated: RustImage)
    requires
        image.wf(),
    ensures
        rotated.wf(),
        rotated.format == image.format,
        rotated.width == image.height,
        rotated.height == image.width,
        rotated.data@ == rotated90(
            image.data@,
            image.width as int,
            image.height as int,
            channels_of(image.format),
        ),
{
    *rotate90(image)
}

} // verus!
