//! What the three long-running tasks (controller, model, user interface)
//! share: how a poll of a task goes on, and what a state channel yields.

use vstd::prelude::*;
use crate::error::Error;

verus! {

/// What a non-blocking look at a channel found.
#[derive(Debug)]
pub enum Signal<S> {
    /// Nothing has arrived yet.
    Empty,
    /// A value arrived.
    Received(S),
    /// The sending side is gone; nothing more will arrive.
    Closed,
}

/// What a task's poll does after its first decision.
#[derive(Debug)]
pub enum PollStep {
    /// Start the task's worker with the channels it was made with; the poll
    /// is then settled by `settle`.
    Spawn,
    /// Look at the state channel and hand what it yields to
    /// `take_state_signal`.
    AwaitStateChange,
    /// The poll is over with this result.
    Ready(Result<(), Error>),
}

/// The answer of a task's poll.
#[derive(Debug)]
pub enum PollResult {
    /// The task has not finished yet.
    Pending,
    /// The task has finished, well or badly.
    Ready(Result<(), Error>),
}

} // verus!
