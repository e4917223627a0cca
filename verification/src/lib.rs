//! Decision logic of a desktop shell that starts a companion agent process
//! when it sets up: where the companion executable is expected, what to do
//! next after each observation of the outside world, and what to print once
//! the attempt is over. The caller performs the actual filesystem and
//! process operations and feeds their results back as events.

pub mod launcher;
pub mod location;
pub mod outcome;
