//! Core logic of a small rocket game: a lifecycle state machine, a
//! fixed-point physics step with boundary clamping, and a periodic timer
//! used to throttle HUD refreshes and input decay.
//!
//! Geometry and velocities are carried in hundredths of a pixel, times in
//! nanoseconds, so that every rule of the game is stated and proved over
//! plain integers. A host crate owns the window, polls the keyboard and
//! clock, hands a snapshot of them to `App::dispatch`, and draws the
//! result.

pub mod app;
pub mod periodic_timer;
pub mod state;
