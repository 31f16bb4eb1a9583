//! An in-memory scene of vector shapes that renders itself as SVG markup.
//!
//! Coordinates are exact decimal fixed-point numbers ([`svg::Scalar`]), so every
//! rendering and every move is specified to the character and to the unit.

pub mod svg;
pub mod utils;
