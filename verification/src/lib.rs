//! Core of a small SVG-to-PNG converter.
//!
//! The library computes intrinsic and scaled raster dimensions for an SVG
//! document, classifies every way a conversion can fail, and drives the
//! rendering crate behind a narrow trusted boundary.  Reading the source
//! file and writing the produced PNG stay with the caller, which hands the
//! library plain values: the text it read, or nothing when the read failed.

pub mod backend;
pub mod convert;
pub mod dims;
pub mod error;
pub mod laws;
pub mod session;
