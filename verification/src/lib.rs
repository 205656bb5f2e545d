//! Core engine of an artificial-horizon attitude display.
//!
//! The library holds the verified logic of the display: the fixed-point
//! rotation geometry, the phase-sequenced attitude generator, the horizon
//! compositor that turns an attitude into oversized sky/ground polygons,
//! the fixed symbology shapes, and the per-frame draw plan. Trigonometric
//! evaluation and the drawing surface live outside the library; they hand
//! in plain integer values (fixed-point sines and cosines) and take plain
//! shape descriptions back.

pub mod attitude;
pub mod frame;
pub mod geometry;
pub mod horizon;
pub mod symbology;
