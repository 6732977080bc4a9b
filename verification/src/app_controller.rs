//! The application controller: it starts the other tasks and waits for the
//! request to quit.

use vstd::prelude::*;
use crate::error::Error;

verus! {

/// A message to the application controller.
#[derive(Debug)]
pub enum AppControllerMessages {
    UiRequestsQuit,
}

/// The life of the application controller.
#[derive(Clone, Copy, Debug, PartialEq, Eq, Structural)]
pub enum AppControllerState {
    New,
    Running,
}

/// What a poll of the application controller does.
#[derive(Clone, Copy, Debug, PartialEq, Eq, Structural)]
pub enum AppControllerStep {
    /// Make the channels, start every task, and answer that the work goes on.
    StartTasks,
    /// Every task has finished: answer that the program is done.
    Finish,
}

/// The application controller as its poll sees it.
pub struct AppController {
    state: AppControllerState,
}

impl AppController {
    /// The state of the application controller.
    pub closed spec fn current_state(self) -> AppControllerState {
        self.state
    }

    /// A new application controller, which has started nothing yet.
    pub fn new() -> (r: Result<AppController, Error>)
        ensures
            r matches Ok(a) && a.current_state() == AppControllerState::New,
    {
        Ok(AppController { state: AppControllerState::New })
    }

    /// The state of the application controller.
    pub fn state(&self) -> (s: AppControllerState)
        ensures
            s == self.current_state(),
    {
        self.state
    }

    /// The decision of a poll: the first one starts the tasks, exactly once;
    /// the poll that follows, once every task has finished and woken the
    /// controller, ends the program.
    pub fn poll_step(&mut self) -> (step: AppControllerStep)
        ensures
            final(self).current_state() == AppControllerState::Running,
            step == (if old(self).current_state() == AppControllerState::New {
                AppControllerStep::StartTasks
            } else {
                AppControllerStep::Finish
            }),
    {
        if self.state == AppControllerState::New {
            self.state = AppControllerState::Running;
            AppControllerStep::StartTasks
        } else {
            AppControllerStep::Finish
        }
    }
}

} // verus!
