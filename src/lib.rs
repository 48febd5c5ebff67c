//! Splits directional sprite sheets into per-direction icon-state records.
pub mod layout;
pub mod raster;
pub mod names;
pub mod state;
pub mod laws;
pub mod nesting;
pub mod config;
