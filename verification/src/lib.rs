//! Safe loading of decoded raster images.
//!
//! The foreign image decoder hands back dimensions, a status, and a buffer it
//! owns. This crate owns the logic around that boundary: marshaling a path
//! into the null-terminated form the foreign interface expects, dispatching
//! between the 8-bit and the floating-point decode paths, translating decode
//! failures into error values, and the discipline of copying the foreign
//! buffer exactly once into owned memory and releasing it exactly once.

pub mod image;
pub mod loader;
pub mod marshal;
