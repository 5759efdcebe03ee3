//! Pixel extents and the dispatch grid that covers them.

use vstd::prelude::*;

verus! {

/// The size of a window or of an image, in pixels.
#[derive(Clone, Copy, Debug, PartialEq, Eq)]
pub struct Extent {
    pub width: u32,
    pub height: u32,
}

impl Extent {
    /// An extent without pixels: a minimised or collapsed window.
    pub open spec fn empty(self) -> bool {
        self.width == 0 || self.height == 0
    }

    /// The number of pixels of an image of this extent.
    pub open spec fn pixels(self) -> nat {
        self.width as nat * self.height as nat
    }

    /// Whether the pixel `(x, y)` lies in an image of this extent.
    pub open spec fn holds(self, x: nat, y: nat) -> bool {
        x < self.width && y < self.height
    }

    pub fn new(width: u32, height: u32) -> (e: Extent)
        ensures
            e.width == width,
            e.height == height,
    {
        Extent { width, height }
    }

    pub fn is_empty(&self) -> (r: bool)
        ensures
            r == self.empty(),
    {
        self.width == 0 || self.height == 0
    }
}

/// The number of workgroups of a compute dispatch along each axis. The kernel
/// runs with a workgroup of one invocation, so this is also the number of
/// invocations.
#[derive(Clone, Copy, Debug, PartialEq, Eq)]
pub struct Grid {
    pub x: u32,
    pub y: u32,
    pub z: u32,
}

impl Grid {
    /// The grid with one invocation for each pixel of `extent`.
    pub open spec fn over(extent: Extent) -> Grid {
        Grid { x: extent.width, y: extent.height, z: 1 }
    }

    /// The number of invocations of a dispatch of this size.
    pub open spec fn invocations(self) -> nat {
        self.x as nat * self.y as nat * self.z as nat
    }

    /// Whether a dispatch of this size runs the invocation `(x, y, z)`.
    pub open spec fn runs(self, x: nat, y: nat, z: nat) -> bool {
        x < self.x && y < self.y && z < self.z
    }

    /// Whether no invocation of this grid falls outside an image of `extent`.
    pub open spec fn within(self, extent: Extent) -> bool {
        self.x <= extent.width && self.y <= extent.height && self.z <= 1
    }

    pub fn covering(extent: Extent) -> (g: Grid)
        ensures
            g == Grid::over(extent),
    {
        Grid { x: extent.width, y: extent.height, z: 1 }
    }

    /// The three counts in the order in which a dispatch takes them.
    pub fn to_array(&self) -> (a: [u32; 3])
        ensures
            a@ == seq![self.x, self.y, self.z],
    {
        [self.x, self.y, self.z]
    }
}

/// A grid over an extent runs exactly one invocation for each pixel, and none
/// outside the image.
pub proof fn lemma_grid_matches_pixels(extent: Extent)
    ensures
        Grid::over(extent).invocations() == extent.pixels(),
        Grid::over(extent).within(extent),
        forall|x: nat, y: nat, z: nat|
            Grid::over(extent).runs(x, y, z) <==> (extent.holds(x, y) && z == 0),
{
    assert(extent.width as nat * extent.height as nat * 1 == extent.width as nat
        * extent.height as nat) by (nonlinear_arith);
}

} // verus!
