//! Image, animation and vector conversion: pixel model, codecs and the
//! conversion workflow, with their contracts proved by Verus.
pub mod raster;
pub mod frame;
pub mod codec;
pub mod text;
pub mod i18n;
pub mod converter;
pub mod paths;
pub mod app_state;
pub mod registry;
