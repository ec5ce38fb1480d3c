//! Media discovery and navigation for an image gallery: an ordered list of
//! candidate paths and a cursor that moves over it with boundary jumps.

pub mod collector;
pub mod cursor;
pub mod navigator;
pub mod pathname;
pub mod walker;
