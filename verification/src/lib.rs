//! Places icons onto the bottom-right corner of a profile picture.
//!
//! The crate is split by concern: `geometry` decides where an icon goes and
//! how large it may be, `format` names the pixel layouts a picture can have,
//! `raster` is the trusted boundary to the `image` crate, `normalize` prepares
//! the profile picture, `overlay` draws an icon onto it, `naming` derives
//! output paths, and `run` sequences a whole job.

pub mod error;
pub mod format;
pub mod geometry;
pub mod naming;
pub mod normalize;
pub mod overlay;
pub mod raster;
pub mod run;
