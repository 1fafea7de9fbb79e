//! Messages shared between the front end and the scheduler.

use vstd::prelude::*;

verus! {

/// A user intent sent from the front end to the scheduler over the command
/// channel.  Delivery is ordered and fire-and-forget: no acknowledgement
/// ever travels back.
#[derive(Clone, Copy, Debug, PartialEq, Eq, Structural)]
pub enum Action {
    Start,
    Play,
    Pause,
    Stop,
}

/// Which part of the front end is currently showing.
#[derive(Clone, Copy, Debug, PartialEq, Eq, Structural)]
pub enum Mode {
    Default,
}

impl Default for Mode {
    fn default() -> (r: Self)
        ensures
            r == Mode::Default,
    {
        Mode::Default
    }
}

} // verus!
