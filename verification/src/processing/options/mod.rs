//! Parsing of the imgproxy-compatible processing directives carried in the URL
//! path.
//!
//! Each option group owns its own types and argument parsing; [`OptionKind`]
//! binds a directive name, or one of its aliases, to the group that
//! understands it, and [`parse_all_options`] applies the directives in order
//! on top of the server's defaults.

pub mod error;
pub mod geometry;
pub mod effects;
pub mod encoder;
pub mod kinds;
pub mod apply;
pub mod laws;

pub use effects::{Adjust, Colorize, Duotone, Monochrome, Watermark, WatermarkPosition, WatermarkSize, Zoom};
pub use encoder::{AvifOptions, JpegOptions, PngOptions, SaveOptions, WebpOptions};
pub use error::{OptionErrorKind, OptionParseError};
pub use geometry::{
    Crop, CropAspectRatio, Extend, Flip, Gravity, GravityType, Resize, ResizingType, ResizingTypeParseError, Trim,
};
pub use kinds::OptionKind;
pub use apply::{parse_all_options, parse_all_options_with_defaults, OptionDefaults, ParsedOptions, ProcessingOption};
