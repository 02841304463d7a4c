//! An in-memory image transformation pipeline: decode encoded image bytes
//! into an RGBA pixel buffer, apply a named colour filter, flip the image
//! horizontally, and synchronise the result with a drawable surface.

pub mod buffer;
pub mod decode;
pub mod error;
pub mod filter;
pub mod flip;
pub mod pipeline;
pub mod surface;
