//! Pixel formats, colors and palettes: the data model of a pixel subsystem
//! and the arithmetic needed to size and interpret pixel buffers.

pub mod codes;
pub mod color;
pub mod error;
pub mod format;
pub mod palette;

pub use color::Color;
pub use error::Error;
pub use format::PixelFormat;
pub use format::PixelFormatEnum;
pub use format::PixelMasks;
pub use palette::Palette;
