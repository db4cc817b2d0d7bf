//! A gauge for the memory usage of a downward-growing call stack.
//!
//! The crate holds the numeric model of one stack (`model`), the mapping
//! from that model to the geometry and colours of its gauge (`visual`), and
//! the exact fractions in which that geometry is expressed (`fraction`).
//! Nothing here draws: a host paints what `visual::compute` returns.

pub mod fraction;
pub mod model;
pub mod visual;
