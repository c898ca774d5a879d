//! A Pomodoro timer: the timer state machine, its status display, the
//! persisted record, the command words that drive it, and the scheduler step
//! that ties them together.
//!
//! Every function that depends on the time has two forms. The form whose name
//! ends in `_at` takes the clock reading as an argument and has an exact
//! contract; the form without the suffix reads the timer's own clock and then
//! does what the `_at` form does for that reading.

pub mod clock;
pub mod text;
pub mod json;
pub mod event;
pub mod command;
pub mod state;
pub mod record;
pub mod timer;
pub mod scheduler;
pub mod laws;
pub mod args;

pub use crate::clock::Reading;
pub use crate::command::{Command, CommandQueue};
pub use crate::event::PomodoroEvent;
pub use crate::scheduler::TickOutcome;
pub use crate::state::{PersistedRecord, Phase};
pub use crate::timer::{Pomodoro, StatusReport};
