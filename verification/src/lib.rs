//! Camera track synthesis for replaying a time-ordered log of spatial
//! events: a greedy spatial clustering pass partitions the event stream
//! into camera tracks, and each track answers tick-indexed queries for
//! the camera's position and viewport rectangle.
//!
//! All world coordinates are integers in a caller-chosen unit (the
//! caller picks a unit fine enough for its data, e.g. half tiles), so
//! every geometric decision is exact and reproducible.

pub mod camera;
pub mod config;
pub mod event;
pub mod geometry;
pub mod laws;
pub mod state;
