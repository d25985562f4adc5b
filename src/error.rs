use vstd::prelude::*;

verus! {

/// The failures that the wrapping layer reports.
#[derive(Debug, Clone)]
pub enum NcnnError {
    /// A pixel buffer's length differs from `width * height * stride`.
    SizeMismatch { expected: i128, provided: usize },
    /// A path or layer name holds a NUL character, which the native side
    /// cannot receive.
    EmbeddedNul { text: String },
    /// Loading a topology from a path failed.
    LoadParam { path: String },
    /// Loading weights from a path failed.
    LoadModel { path: String },
    /// Loading weights through a data reader failed.
    LoadReader,
    /// Binding a named input failed.
    Bind { name: String },
    /// Running extraction for a named output failed.
    Extract { name: String },
}

} // verus!
