//! Ferrischart: build labeled raster scatter plots.
//!
//! The crate derives unit-spaced axis labels from a data extent, maps each
//! label to a pixel position along its axis, projects arbitrary data values
//! into pixel space by exact tick lookup or linear interpolation, aggregates
//! coincident points into weighted markers, and composes the result onto a
//! fixed-size canvas.

pub mod aggregate;
pub mod axis;
pub mod canvas;
pub mod charts;
pub mod error;
pub mod fixed;
pub mod labels;
pub mod project;
