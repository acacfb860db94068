//! Single-image format conversion: the decisions of the pipeline, verified.

pub mod codec;
pub mod decoder;
pub mod encoder;
pub mod error;
pub mod format;
pub mod path;
pub mod pipeline;
pub mod raster;
pub mod resolve;
