//! Core of an interactive Mandelbrot-set explorer: the mapping between pixel
//! and complex-plane coordinates, the escape-time evaluation with its
//! colorization, and the view-state updates for panning and cursor-anchored
//! zooming. Plane coordinates are carried as signed 64-bit fixed-point values
//! with 32 fractional bits, so every arithmetic step has an exact contract.
//! Window creation, input polling and display compositing are outside
//! collaborators: they feed plain events in and take the finished RGBA
//! buffer out.

pub mod buffer;
pub mod color;
pub mod coord;
pub mod engine;
pub mod escape;
pub mod fixed;
pub mod pan;
pub mod render;
pub mod viewport;
pub mod zoom;
