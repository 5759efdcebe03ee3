//! The presentation surface as the frame driver knows it.

use crate::extent::Extent;
use vstd::prelude::*;

verus! {

/// The least number of images that a surface must buffer for tear-free pacing.
pub const MIN_IMAGES: u32 = 2;

/// The number of images to ask the presentation layer for, given the least
/// number that it supports: the larger of that number and `MIN_IMAGES`.
pub fn buffered_images(supported_min: u32) -> (n: u32)
    ensures
        n == vstd::math::max(supported_min as int, MIN_IMAGES as int),
{
    if supported_min < MIN_IMAGES {
        MIN_IMAGES
    } else {
        supported_min
    }
}

/// The generation that follows `generation`. The counter wraps, so that a
/// rebuild is always possible; two generations in a row still differ.
pub open spec fn generation_after(generation: u64) -> u64 {
    if generation == u64::MAX {
        0
    } else {
        (generation + 1) as u64
    }
}

/// One presentable image: its index among the images of the surface of one
/// generation. The index means nothing against any other generation.
#[derive(Clone, Copy, Debug, PartialEq, Eq)]
pub struct FrameImage {
    pub index: u32,
    pub generation: u64,
}

/// The live presentation target: its extent, the number of its images and the
/// count of the rebuilds that led to it.
#[derive(Clone, Copy, Debug, PartialEq, Eq)]
pub struct Surface {
    pub extent: Extent,
    pub images: u32,
    pub generation: u64,
}

impl Surface {
    /// A surface that can be drawn to: it has pixels and buffers enough images.
    pub open spec fn usable(self) -> bool {
        !self.extent.empty() && self.images >= MIN_IMAGES
    }

    /// Whether `image` is one of the images of this very surface.
    pub open spec fn owns(self, image: FrameImage) -> bool {
        image.generation == self.generation && image.index < self.images
    }

    /// The surface that replaces this one after a rebuild.
    pub open spec fn replaced(self, extent: Extent, images: u32) -> Surface {
        Surface { extent, images, generation: generation_after(self.generation) }
    }

    /// The image of this surface with the given index.
    pub open spec fn image(self, index: u32) -> FrameImage {
        FrameImage { index, generation: self.generation }
    }
}

/// Stands for work that was submitted and is not yet known to be complete. A
/// submission produces it, and the wait of the next submission consumes it.
#[derive(Clone, Copy, Debug, PartialEq, Eq)]
pub struct InFlightToken {}

} // verus!
