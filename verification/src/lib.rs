//! Verified core of a QR code toolkit built on the `fast_qr` crate.
//!
//! The library records the choices a caller makes (error correction level,
//! encoding mode, version, mask, colors, shapes) in plain values whose
//! behaviour is proved, and hands them to `fast_qr` for the encoding and the
//! rendering work.

mod backend;

pub mod builder;
pub mod color;
pub mod encoder;
pub mod error;
pub mod image;
pub mod options;
pub mod svg;
pub mod svg_render;
pub mod symbol;
pub mod text;
pub mod version;

pub use builder::QRBuilder;
pub use color::{Color, ColorInput};
pub use error::{EncodeError, Error};
pub use image::ImageBuilder;
pub use options::{ImageBackgroundShape, Mask, Mode, Shape, ECL};
pub use svg::{ShapeLayer, SvgBuilder};
pub use symbol::QRCode;
pub use version::Version;
