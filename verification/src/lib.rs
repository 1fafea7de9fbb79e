//! A gapless, seamlessly-looping music player core.
//!
//! The crate models the scheduling engine of a jukebox that plays a short
//! intro segment once and then repeats a loop body forever without an audible
//! gap.  Everything here is pure bookkeeping over integer milliseconds: the
//! front end and the audio device live outside the crate and only exchange
//! plain commands and directives with the scheduler.

pub mod fire_times;
pub mod scheduler;
pub mod time_base;
pub mod track;
pub mod util;
