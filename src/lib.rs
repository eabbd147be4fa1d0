//! Procedural escape-time images: a linear gradient background combined with
//! the iteration counts of a Julia-style recurrence, assembled into an RGB
//! raster, plus the command-line grammar of the image tool around it.
//!
//! The floating-point recurrence itself lives outside this library; the
//! library takes its per-pixel iteration counts as plain integers and proves
//! everything that is decided from them.

pub mod shading;
pub mod raster;
pub mod generator;
pub mod escape;
pub mod command;
pub mod edit;
