//! Decision logic for a command re-runner: a confirmation screen reduced to a
//! key-event state machine, shell resolution, and the plan of the run loop.

pub mod key;
pub mod screen;
pub mod session;
pub mod shell;
