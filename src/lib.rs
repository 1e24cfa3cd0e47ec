//! Pixel-to-complex mapping and escape-time decisions for rendering the
//! Mandelbrot set, with exact rational coordinates.

mod calculator;
mod escape;

pub use calculator::{ComplexPoint, ConfigError, Fraction, MandelbrotCalculator, Viewport};
pub use escape::{EscapeRun, Probe, Step, BAILOUT, MEMBER_LIMIT};
