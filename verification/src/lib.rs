//! Recording and timed replay of mouse input.
//!
//! The crate holds the decision logic of an input macro recorder: the
//! classification of raw hook notifications, the hotkey-driven recording
//! state machine with its queue of deferred work, the binary layout of a
//! stored record, and the schedule by which a record is played back. Each
//! function carries a contract over a mathematical model of its data, and
//! the laws that relate several functions are public proof functions.

pub mod capture;
pub mod history;
pub mod input;
pub mod persist;
pub mod play;
pub mod state;
pub mod wire;

