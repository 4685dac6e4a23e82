//! The loader: where the kernel image goes, and what goes there.

pub mod image;
pub mod placement;
pub mod segment;
pub mod sequence;
