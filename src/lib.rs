//! Ownership-safe wrapping layer over the ncnn inference library.
//!
//! The native calls themselves live outside this crate; what stands here is
//! the verified part of the layer: pixel-buffer validation, the shape record
//! of a matrix, the loading state of a network and the input bindings of an
//! extraction session, each with the rule that decides success or failure.

pub mod error;
pub mod mat;
pub mod net;

pub use error::NcnnError;
pub use mat::{Allocator, Mat, MatPixelType, MatShape};
pub use net::{Extractor, Net, NetState};
