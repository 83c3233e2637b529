//! Engine runtime: the decision logic of a small windowed diagram editor.
//!
//! The crate holds the parts of the runtime that are pure logic: frame pacing,
//! the hibernation governor, the header's interaction state, hover resolution,
//! the interaction state of the UI and the action/zone scanner behind the
//! `ui_blueprint!` procedural macro. Windowing, GPU work and all floating-point
//! geometry live in the application around it.

pub mod header;
pub mod names;
pub mod tokens;
pub mod blueprint;
pub mod primitives;
pub mod ui_zone;
pub mod frame_delay;
pub mod runtime;
pub mod diagram;
pub mod laws;
