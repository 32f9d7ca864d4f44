//! A cursor that chases and closes a stack of randomly spawned windows.
//!
//! Coordinates are integers counted in thousandths of a drawing unit, and the
//! pointer's progress along a transit is counted in thousandths as well, so
//! every rule of the animation is stated and proved exactly.
pub mod geometry;
pub mod easing;
pub mod pointer;
pub mod chance;
pub mod metronome;
pub mod phrase;
pub mod window_stack;
pub mod simulation;
pub mod scene;
