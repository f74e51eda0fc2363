//! Styled text rendering for pixel surfaces.
//!
//! A [`FontTextStyle`] turns the glyph coverage that a font rasterizer
//! produces into pixels, a background fill and decoration bars. The
//! rasterizer and the surface stay outside: glyphs come in as plain
//! integer records, and drawing goes out as an ordered list of
//! [`DrawCommand`]s that a caller replays on its surface.
use vstd::prelude::*;

pub mod builder;
pub mod color;
pub mod geometry;
pub mod glyph;
pub mod style;

pub use builder::FontTextStyleBuilder;
pub use color::{
    pixel_color_to_u32, rgba_background_to_rgb, rgba_blend, rgba_to_rgb, u32_to_rgba, Rgb,
};
pub use geometry::{Command, DrawCommand, Pixel, Point, Rectangle, Size, TextMetrics};
pub use glyph::{ink_width, pen_width, Coverage, GlyphInk, LaidOutGlyph};
pub use style::{AntiAliasing, DecorationColor, FontTextStyle};
