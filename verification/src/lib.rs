//! A verified core for converting a raster image into a grid of palette
//! blocks: aspect-preserving downsampling, perceptual colour matching over a
//! fixed block palette, and the resulting grid's queries and exports.

use vstd::prelude::*;

pub mod colour;
pub mod config;
pub mod palette;
pub mod design;
pub mod matcher;
pub mod raster;
pub mod render;
pub mod schematic;

pub use config::ColourSpace;
pub use config::ConfigBuilder;
pub use config::DownsamplingMethod;
pub use design::Design;

verus! {

/// The maximum permitted target height for a conversion run.
pub const BUILD_LIMIT: u16 = 320;

} // verus!
