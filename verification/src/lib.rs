//! A minimal 2D rendering harness: sprite-sheet animation and a recursively
//! subdivided triangle fractal, with the scheduling and loading decisions
//! stated as verified state machines.

pub mod clock;
pub mod compositor;
pub mod error;
pub mod fractal;
pub mod geometry;
pub mod loader;
pub mod sheet;
pub mod signal;
pub mod surface;
