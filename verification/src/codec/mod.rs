//! Decoders and encoders for the supported formats.
pub mod apng_codec;
pub mod png_bridge;
pub mod image_bridge;
pub mod gif_codec;
pub mod static_codec;
pub mod svg_codec;
