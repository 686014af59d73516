//! Core of a bouncing-element animation: viewport and element measurement,
//! the edge-reflection rule that reverses direction at the viewport edges,
//! and the frame-driver state machine with its stop discipline.

pub mod controller;
pub mod driver;
pub mod probe;

pub use crate::controller::{get_element_rect, next_step, Context, ElementRect};
pub use crate::driver::{Driver, DriverState};
pub use crate::probe::{get_max_dimensions, Dimensions};
