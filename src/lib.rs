//! Turns raster images into ASCII art: each pixel's brightness selects one
//! glyph of a fixed ramp, rows are separated by newlines.
pub mod convert;
pub mod dimension;
pub mod glyph;
pub mod raster;
pub mod render;
