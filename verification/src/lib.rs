//! Frame-consistent keyboard and pointer input tracking, and the camera
//! motion that is derived from it.
//!
//! A windowing layer reports key presses, key releases and pointer motion as
//! they happen. [`input::OpalAppInputManager`] absorbs them into the state of
//! the running frame and keeps the state of the frame before it, so that "is
//! this key held" and "did it change this frame" can be answered at any time
//! and any number of times. [`camera::CameraController`] turns those answers
//! into the distance that a free-flying camera travels along its own axes,
//! and [`driver::OpalApp`] decides, event by event, what the surrounding
//! event loop has to do next.
//!
//! Nothing here draws, reads a clock or touches a window: every function maps
//! plain values to plain values.

pub mod camera;
pub mod driver;
pub mod event;
pub mod input;
pub mod laws;

pub use crate::driver::OpalApp;
pub use crate::input::{OpalAppInputManager, OpalAppInputState};
