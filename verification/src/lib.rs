//! Conversion of decoded raster images to the AVIF format.
//!
//! The library decodes an in-memory byte stream into an image of one of the
//! supported color representations, normalizes it to a canonical 8-bit RGBA
//! pixel buffer (row-major, four bytes per pixel), and encodes that buffer as
//! an AVIF byte stream. Reading the input and writing the output file are left
//! to the caller.

pub mod error;
pub mod image_data;
pub mod normalize;
pub mod codec;
