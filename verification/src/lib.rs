//! Texture preparation: turn an encoded source image into a GPU-ready
//! block-compressed texture payload together with the metadata needed to
//! interpret it (width, height, and the compression format actually used).

pub mod align;
pub mod format;
pub mod pipeline;
pub mod surface;
