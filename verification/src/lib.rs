//! A resizable RGB image buffer with a gradient fill, the exact byte
//! interpolation it is built on, a binary PPM encoder for its contents, and
//! the decisions of a viewer that shows it.

pub mod clock;
pub mod color;
pub mod math;
pub mod ppm;
pub mod tracer;
pub mod viewer;

pub use color::Color;
pub use ppm::encode_ppm;
pub use tracer::Tracer;
