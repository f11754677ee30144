//! The computational core of a small book of noise sketches: range
//! remapping, the growing buffer of recorded samples, seeds, and the frames
//! drawn from them.

pub mod buffer;
pub mod canvas;
pub mod capture;
pub mod field;
pub mod graph;
pub mod range;
pub mod raster;
pub mod seed;
pub mod settings;
pub mod source;
