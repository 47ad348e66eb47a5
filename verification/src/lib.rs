//! Raster-to-vector conversion: transparency keying, parameter derivation,
//! the staged segmentation pipeline and the ordered collection of paths.

pub mod args;
pub mod buffer;
pub mod color;
pub mod config;
pub mod converter;
pub mod emission;
pub mod keying;
pub mod random;
pub mod segmentation;
pub mod svg;
pub mod text;

pub use args::{config_from_arguments, construct_config, Arguments, ConfigError, Options};
pub use buffer::PixelBuffer;
pub use color::Color;
pub use config::{
    path_simplify_mode, preset, ColorMode, Config, ConverterConfig, Hierarchical,
    PathSimplifyMode, Preset, SegmentLength,
};
pub use converter::{convert, BinaryImageConverter, ColorImageConverter, Conversion, Stage};
pub use svg::{SvgFile, SvgPath};
