//! Simulation core of a first-person client: per-frame input accumulation,
//! the game actor that consumes events and emits commands, and the loops, on
//! one thread or two, that drive it.
//!
//! Nothing here reads a clock, opens a window or holds a float: a caller
//! hands in the events, and gets back the input to advance its world with.

pub mod vector;
pub mod input;
pub mod camera;
pub mod game;
pub mod framecounter;
pub mod frontend;
pub mod host;
pub mod runtime;

pub use crate::frontend::{EventBuffer, FrontendCommand, FrontendEvent};
pub use crate::game::{ClientGame, ClientGameCommand, ClientGameEvent};
pub use crate::host::run;
pub use crate::input::{Button, InputState};
