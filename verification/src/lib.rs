//! Integer-unit layout engine for tables with a fixed header and a scrolling,
//! optionally virtualized body.
//!
//! Every length and coordinate is an `i64` count of layout units (the host
//! picks the unit, for instance 1/64 of a point). Arithmetic on coordinates
//! saturates at the ends of the `i64` range instead of overflowing.

pub mod demo;
pub mod geometry;
pub mod interaction;
pub mod layout;
pub mod sizing;
pub mod table;
pub mod units;
pub mod window;
