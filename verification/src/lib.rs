//! Model of a minimal native GUI window that draws a centered circle.
//!
//! The library holds the logic of the demo: the geometry of the inscribed
//! circle, the per-window event state machine, and the bridge that routes a
//! fixed-signature window callback to per-instance handlers. The platform
//! calls themselves (window creation, message pumping, Direct2D rendering)
//! are performed by the surrounding application, which feeds their outcomes
//! into these verified functions.

pub mod base_window;
pub mod bridge;
pub mod geometry;
pub mod main_window;
pub mod messages;
