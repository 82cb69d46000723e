//! The decision-making core of a small renderer: a rotating three-colour triangle
//! with a line of rasterised text drawn over it, once per frame.
//!
//! Everything here is exact integer logic. Quantities that end up as fractions on
//! the graphics device (colours, template positions, scale factors, quad corners)
//! are held in thousandths; fixed-point font metrics are held in sixty-fourths of
//! a pixel. The caller owns the device, the font engine and the clock, performs
//! the commands this crate hands out, and converts thousandths at the very edge.

pub mod units;
pub mod shaders;
pub mod scene;
pub mod draw;
pub mod glyph;
pub mod text;
pub mod render;
