//! Frame pacing for a window that is painted by a single compute dispatch.
//!
//! The crate holds the decisions of such a renderer and none of its device
//! calls: which physical device to use, how the presentation surface is to be
//! configured, and, for every redraw, in which order the surface is rebuilt,
//! an image is acquired and the dispatch is submitted and presented.

pub mod device;
pub mod driver;
pub mod extent;
pub mod laws;
pub mod shader;
pub mod surface;
