//! The controller: it routes the user interface's requests to the model and
//! spreads a request to quit to every task.

use vstd::prelude::*;
use crate::app_controller::AppControllerMessages;
use crate::error::Error;
use crate::lifecycle::{PollResult, PollStep, Signal};
use crate::model::ModelMessages;
use crate::ui::UiMessages;

verus! {

/// A request to the controller. `R` is the channel on which the answer goes
/// back to the one who asked.
#[derive(Debug)]
pub enum ControllerMessages<R> {
    GetModelSchemaVersion(R),
    GetPersons(R),
    MigrateDown(R),
    MigrateToLatest(R),
    MigrateUp(R),
    UiRequestsQuit,
}

/// The life of the controller task.
#[derive(Clone, Copy, Debug, PartialEq, Eq, Structural)]
pub enum ControllerState {
    New,
    Running,
    Finished,
}

/// How a controller state is written in messages.
pub open spec fn controller_state_name(s: ControllerState) -> Seq<char> {
    match s {
        ControllerState::New => "New"@,
        ControllerState::Running => "Running"@,
        ControllerState::Finished => "Finished"@,
    }
}

impl ControllerState {
    /// The name of the state, as messages write it.
    pub fn name(&self) -> (n: &'static str)
        ensures
            n@ == controller_state_name(*self),
    {
        match self {
            ControllerState::New => "New",
            ControllerState::Running => "Running",
            ControllerState::Finished => "Finished",
        }
    }
}

/// The controller task as its poll sees it: its state, whether it still holds
/// the channels that its worker is to be started with, and whether it has
/// the channel on which the worker reports state changes.
pub struct Controller {
    state: ControllerState,
    holds_channels: bool,
    has_state_receiver: bool,
}

impl Controller {
    /// A new controller holds its channels until its first poll starts the
    /// worker with them; from then on it has the state channel.
    #[verifier::type_invariant]
    closed spec fn channels_until_started(self) -> bool {
        &&& (self.state == ControllerState::New) == self.holds_channels
        &&& self.state != ControllerState::New ==> self.has_state_receiver
    }

    /// The state of the task.
    pub closed spec fn current_state(self) -> ControllerState {
        self.state
    }

    /// Whether the task still holds the channels for its worker.
    pub closed spec fn holds_channels(self) -> bool {
        self.holds_channels
    }

    /// Whether the task has the channel on which its worker reports.
    pub closed spec fn has_state_receiver(self) -> bool {
        self.has_state_receiver
    }

    /// A new controller, which holds the channels for its worker.
    pub fn new() -> (r: Result<Controller, Error>)
        ensures
            r matches Ok(c) && c.current_state() == ControllerState::New && c.holds_channels()
                && !c.has_state_receiver(),
    {
        Ok(Controller { state: ControllerState::New, holds_channels: true, has_state_receiver: false })
    }

    /// The state of the task.
    pub fn state(&self) -> (s: ControllerState)
        ensures
            s == self.current_state(),
    {
        self.state
    }

    /// The first decision of a poll. A new task hands its channels to its
    /// worker, which `Spawn` asks to start, and runs; a running or finished
    /// one looks at its state channel, or fails where it has none.
    pub fn begin_poll(&mut self) -> (step: PollStep)
        ensures
            !final(self).holds_channels(),
            old(self).current_state() != ControllerState::New ==> old(self).has_state_receiver(),
            old(self).current_state() == ControllerState::New ==> {
                &&& step is Spawn
                &&& final(self).current_state() == ControllerState::Running
                &&& final(self).has_state_receiver()
            },
            old(self).current_state() != ControllerState::New ==> {
                &&& final(self).current_state() == old(self).current_state()
                &&& final(self).has_state_receiver() == old(self).has_state_receiver()
                &&& step == (if old(self).has_state_receiver() {
                    PollStep::AwaitStateChange
                } else {
                    PollStep::Ready(Err(Error::ControllerMissingStateReceiver))
                })
            },
    {
        proof { use_type_invariant(&*self); }
        if self.state == ControllerState::New {
            *self = Controller {
                state: ControllerState::Running,
                holds_channels: false,
                has_state_receiver: true,
            };
            PollStep::Spawn
        } else {
            self.holds_channels = false;
            if self.has_state_receiver {
                PollStep::AwaitStateChange
            } else {
                PollStep::Ready(Err(Error::ControllerMissingStateReceiver))
            }
        }
    }

    /// The answer of a poll once the state is settled: ready where the task
    /// has finished, pending otherwise.
    pub fn settle(&self) -> (r: PollResult)
        ensures
            r == (if self.current_state() == ControllerState::Finished {
                PollResult::Ready(Ok(()))
            } else {
                PollResult::Pending
            }),
    {
        if self.state == ControllerState::Finished {
            PollResult::Ready(Ok(()))
        } else {
            PollResult::Pending
        }
    }

    /// The rest of a poll that found `signal` on the state channel. A new
    /// state is taken, except `New`, which is refused; a closed channel is an
    /// error.
    pub fn take_state_signal(&mut self, signal: Signal<ControllerState>) -> (r: PollResult)
        requires
            old(self).current_state() != ControllerState::New,
        ensures
            final(self).holds_channels() == old(self).holds_channels(),
            final(self).has_state_receiver() == old(self).has_state_receiver(),
            final(self).current_state() != ControllerState::New,
            match signal {
                Signal::Empty => {
                    &&& final(self).current_state() == old(self).current_state()
                    &&& r == (if old(self).current_state() == ControllerState::Finished {
                        PollResult::Ready(Ok(()))
                    } else {
                        PollResult::Pending
                    })
                },
                Signal::Received(next) => if next == ControllerState::New {
                    &&& final(self).current_state() == old(self).current_state()
                    &&& r == PollResult::Ready(Err(Error::InvalidControllerStateTransition(
                        old(self).current_state(),
                        ControllerState::New,
                    )))
                } else {
                    &&& final(self).current_state() == next
                    &&& r == (if next == ControllerState::Finished {
                        PollResult::Ready(Ok(()))
                    } else {
                        PollResult::Pending
                    })
                },
                Signal::Closed => {
                    &&& final(self).current_state() == old(self).current_state()
                    &&& r == PollResult::Ready(Err(Error::ControllerStateSenderClosed))
                },
            },
    {
        proof { use_type_invariant(&*self); }
        match signal {
            Signal::Empty => {},
            Signal::Received(next) => {
                if next == ControllerState::New {
                    return PollResult::Ready(
                        Err(Error::InvalidControllerStateTransition(self.state, ControllerState::New)),
                    );
                }
                self.state = next;
            },
            Signal::Closed => {
                return PollResult::Ready(Err(Error::ControllerStateSenderClosed));
            },
        }
        self.settle()
    }
}

/// A message that the controller sends when it shuts down.
#[derive(Debug)]
pub enum QuitNotice<R> {
    ToModel(ModelMessages<R>),
    ToUi(UiMessages),
    ToAppController(AppControllerMessages),
    /// A state change of the controller itself, on its state channel.
    State(ControllerState),
}

/// The notices of a shutdown, in the order in which they go: the request to
/// quit to the model, then to the user interface, then to the application
/// controller, and last the controller's own `Finished` state.
pub open spec fn shutdown_notices<R>() -> Seq<QuitNotice<R>> {
    seq![
        QuitNotice::ToModel(ModelMessages::UiRequestsQuit),
        QuitNotice::ToUi(UiMessages::UiRequestsQuit),
        QuitNotice::ToAppController(AppControllerMessages::UiRequestsQuit),
        QuitNotice::State(ControllerState::Finished),
    ]
}

/// What the controller does with what arrives on its request channel.
#[derive(Debug)]
pub enum ControllerRoute<R> {
    /// Hand the request on to the model.
    ForwardToModel(ModelMessages<R>),
    /// Send the notices, one after the other in their order, wake the task
    /// where asked, and stop.
    Shutdown { notices: Vec<QuitNotice<R>>, wake: bool },
    /// The request channel is closed: stop.
    Stop,
}

/// The model's form of a request to the controller, with the same answer
/// channel; `None` for the request to quit.
pub open spec fn model_request_of<R>(msg: ControllerMessages<R>) -> Option<ModelMessages<R>> {
    match msg {
        ControllerMessages::GetModelSchemaVersion(r) => Some(ModelMessages::GetModelSchemaVersion(r)),
        ControllerMessages::GetPersons(r) => Some(ModelMessages::GetPersons(r)),
        ControllerMessages::MigrateDown(r) => Some(ModelMessages::MigrateDown(r)),
        ControllerMessages::MigrateToLatest(r) => Some(ModelMessages::MigrateToLatest(r)),
        ControllerMessages::MigrateUp(r) => Some(ModelMessages::MigrateUp(r)),
        ControllerMessages::UiRequestsQuit => None,
    }
}

/// The controller's decision on what its request channel yielded (`None`
/// once it is closed): each request about the data goes to the model with
/// its answer channel; a request to quit goes to the model, the user
/// interface and the application controller, in that order, the controller
/// reports that it has finished, and it wakes its task.
pub fn route<R>(received: Option<ControllerMessages<R>>) -> (route: ControllerRoute<R>)
    ensures
        match received {
            None => route is Stop,
            Some(msg) => match model_request_of(msg) {
                Some(m) => route == ControllerRoute::ForwardToModel(m),
                None => route matches ControllerRoute::Shutdown { notices, wake } && notices@
                    == shutdown_notices::<R>() && wake,
            },
        },
{
    match received {
        Some(ControllerMessages::GetModelSchemaVersion(r)) => ControllerRoute::ForwardToModel(
            ModelMessages::GetModelSchemaVersion(r),
        ),
        Some(ControllerMessages::GetPersons(r)) => ControllerRoute::ForwardToModel(
            ModelMessages::GetPersons(r),
        ),
        Some(ControllerMessages::MigrateDown(r)) => ControllerRoute::ForwardToModel(
            ModelMessages::MigrateDown(r),
        ),
        Some(ControllerMessages::MigrateToLatest(r)) => ControllerRoute::ForwardToModel(
            ModelMessages::MigrateToLatest(r),
        ),
        Some(ControllerMessages::MigrateUp(r)) => ControllerRoute::ForwardToModel(
            ModelMessages::MigrateUp(r),
        ),
        Some(ControllerMessages::UiRequestsQuit) => {
            let mut notices: Vec<QuitNotice<R>> = Vec::new();
            notices.push(QuitNotice::ToModel(ModelMessages::UiRequestsQuit));
            notices.push(QuitNotice::ToUi(UiMessages::UiRequestsQuit));
            notices.push(QuitNotice::ToAppController(AppControllerMessages::UiRequestsQuit));
            notices.push(QuitNotice::State(ControllerState::Finished));
            assert(notices@ =~= shutdown_notices::<R>());
            ControllerRoute::Shutdown { notices, wake: true }
        },
        None => ControllerRoute::Stop,
    }
}

} // verus!
