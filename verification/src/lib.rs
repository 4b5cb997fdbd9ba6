//! Incremental "ASCII art" stippling: a source raster is sampled at random
//! points, and randomly chosen characters are stamped, in the sampled colors,
//! onto an accumulating canvas over a fixed number of steps; the finished
//! canvas is then encoded to an image file.

pub mod codec;
pub mod compositor;
pub mod config;
pub mod exporter;
pub mod palette;
pub mod render;
mod rng;
pub mod sampler;
pub mod scale;
pub mod source;
