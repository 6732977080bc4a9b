//! The user interface task.

use vstd::prelude::*;
use crate::controller::ControllerMessages;
use crate::error::Error;
use crate::lifecycle::{PollResult, PollStep, Signal};
use crate::migrations::{
    down_target, schema_version_of, up_target, DbSchemaVersion, SchemaVersion, SchemaVersionInfo,
    MAX_VERSION,
};
use crate::model::{Migration, ModelValues, migration_answer};
use crate::person::{row_text, Person};
use crate::text::{decimal, join, join_lines, push_decimal};

verus! {

/// A message to the user interface.
#[derive(Debug)]
pub enum UiMessages {
    UiRequestsQuit,
}

/// The life of the user interface task.
#[derive(Clone, Copy, Debug, PartialEq, Eq, Structural)]
pub enum UiState {
    New,
    Running,
    Finished,
}

/// How a user interface state is written in messages.
pub open spec fn ui_state_name(s: UiState) -> Seq<char> {
    match s {
        UiState::New => "New"@,
        UiState::Running => "Running"@,
        UiState::Finished => "Finished"@,
    }
}

impl UiState {
    /// The name of the state, as messages write it.
    pub fn name(&self) -> (n: &'static str)
        ensures
            n@ == ui_state_name(*self),
    {
        match self {
            UiState::New => "New",
            UiState::Running => "Running",
            UiState::Finished => "Finished",
        }
    }
}

/// The user interface task as its poll sees it: its state, whether it still
/// holds the channels that its worker is to be started with, and whether it
/// has the channel on which the worker reports state changes. A poll takes
/// that channel out and puts it back only where the poll is pending.
pub struct Ui {
    state: UiState,
    holds_channels: bool,
    has_state_receiver: bool,
}

impl Ui {
    /// A new user interface holds its channels until its first poll starts
    /// the worker with them.
    #[verifier::type_invariant]
    closed spec fn channels_until_started(self) -> bool {
        (self.state == UiState::New) == self.holds_channels
    }

    /// The state of the task.
    pub closed spec fn current_state(self) -> UiState {
        self.state
    }

    /// Whether the task still holds the channels for its worker.
    pub closed spec fn holds_channels(self) -> bool {
        self.holds_channels
    }

    /// Whether the task has the channel on which its worker reports.
    pub closed spec fn has_state_receiver(self) -> bool {
        self.has_state_receiver
    }

    /// Whether the task has the channel on which its worker reports.
    pub fn state_receiver_held(&self) -> (held: bool)
        ensures
            held == self.has_state_receiver(),
    {
        self.has_state_receiver
    }

    /// A new user interface, which holds the channels for its worker.
    pub fn new() -> (r: Result<Ui, Error>)
        ensures
            r matches Ok(u) && u.current_state() == UiState::New && u.holds_channels()
                && !u.has_state_receiver(),
    {
        Ok(Ui { state: UiState::New, holds_channels: true, has_state_receiver: false })
    }

    /// The state of the task.
    pub fn state(&self) -> (s: UiState)
        ensures
            s == self.current_state(),
    {
        self.state
    }

    /// The first decision of a poll. A new task hands its channels to its
    /// worker, which `Spawn` asks to start, runs, and gets its state channel;
    /// a running or finished one looks at its state channel, or fails where
    /// it has none.
    pub fn begin_poll(&mut self) -> (step: PollStep)
        ensures
            !final(self).holds_channels(),
            old(self).current_state() == UiState::New ==> {
                &&& step is Spawn
                &&& final(self).current_state() == UiState::Running
                &&& final(self).has_state_receiver()
            },
            old(self).current_state() != UiState::New ==> {
                &&& final(self).current_state() == old(self).current_state()
                &&& final(self).has_state_receiver() == old(self).has_state_receiver()
                &&& step == (if old(self).has_state_receiver() {
                    PollStep::AwaitStateChange
                } else {
                    PollStep::Ready(Err(Error::UiMissingStateReceiver))
                })
            },
    {
        proof { use_type_invariant(&*self); }
        if self.state == UiState::New {
            *self = Ui { state: UiState::Running, holds_channels: false, has_state_receiver: true };
            PollStep::Spawn
        } else {
            self.holds_channels = false;
            if self.has_state_receiver {
                PollStep::AwaitStateChange
            } else {
                PollStep::Ready(Err(Error::UiMissingStateReceiver))
            }
        }
    }

    /// The answer of a poll once the state is settled: ready where the task
    /// has finished, pending otherwise.
    pub fn settle(&self) -> (r: PollResult)
        ensures
            r == (if self.current_state() == UiState::Finished {
                PollResult::Ready(Ok(()))
            } else {
                PollResult::Pending
            }),
    {
        if self.state == UiState::Finished {
            PollResult::Ready(Ok(()))
        } else {
            PollResult::Pending
        }
    }

    /// The rest of a poll that found `signal` on the state channel. A new
    /// state is taken, except `New`, which is refused; an empty or closed
    /// channel changes nothing. The state channel is kept only where the
    /// poll is pending.
    pub fn take_state_signal(&mut self, signal: Signal<UiState>) -> (r: PollResult)
        requires
            old(self).current_state() != UiState::New,
            old(self).has_state_receiver(),
        ensures
            final(self).holds_channels() == old(self).holds_channels(),
            final(self).has_state_receiver() == (r is Pending),
            final(self).current_state() != UiState::New,
            match signal {
                Signal::Received(next) => if next == UiState::New {
                    &&& final(self).current_state() == old(self).current_state()
                    &&& r == PollResult::Ready(Err(Error::InvalidUiStateTransition(
                        old(self).current_state(),
                        UiState::New,
                    )))
                } else {
                    &&& final(self).current_state() == next
                    &&& r == (if next == UiState::Finished {
                        PollResult::Ready(Ok(()))
                    } else {
                        PollResult::Pending
                    })
                },
                _ => {
                    &&& final(self).current_state() == old(self).current_state()
                    &&& r == (if old(self).current_state() == UiState::Finished {
                        PollResult::Ready(Ok(()))
                    } else {
                        PollResult::Pending
                    })
                },
            },
    {
        proof { use_type_invariant(&*self); }
        self.has_state_receiver = false;
        match signal {
            Signal::Received(next) => {
                if next == UiState::New {
                    return PollResult::Ready(
                        Err(Error::InvalidUiStateTransition(self.state, UiState::New)),
                    );
                }
                self.state = next;
            },
            _ => {},
        }
        let r = self.settle();
        if let PollResult::Pending = r {
            self.has_state_receiver = true;
        }
        r
    }
}

/// The buttons of the first screen.
#[derive(Clone, Copy, Debug, PartialEq, Eq, Structural)]
pub enum Button {
    MigrateDown,
    MigrateToLatest,
    MigrateUp,
    ShowPersons,
    Quit,
}

/// The name under which the screen knows a button.
pub open spec fn button_name(b: Button) -> Seq<char> {
    match b {
        Button::MigrateDown => "migrate_down_button"@,
        Button::MigrateToLatest => "migrate_to_latest_button"@,
        Button::MigrateUp => "migrate_up_button"@,
        Button::ShowPersons => "show_persons_button"@,
        Button::Quit => "quit_button"@,
    }
}

impl Button {
    /// The name under which the screen knows the button.
    pub fn view_name(&self) -> (n: &'static str)
        ensures
            n@ == button_name(*self),
    {
        match self {
            Button::MigrateDown => "migrate_down_button",
            Button::MigrateToLatest => "migrate_to_latest_button",
            Button::MigrateUp => "migrate_up_button",
            Button::ShowPersons => "show_persons_button",
            Button::Quit => "quit_button",
        }
    }
}

/// The request that a button of the first screen sends to the controller,
/// with the channel for its answer; none for "Quit", which asks to quit
/// without waiting for an answer.
pub open spec fn request_of<R>(button: Button, responder: R) -> Option<ControllerMessages<R>> {
    match button {
        Button::MigrateDown => Some(ControllerMessages::MigrateDown(responder)),
        Button::MigrateToLatest => Some(ControllerMessages::MigrateToLatest(responder)),
        Button::MigrateUp => Some(ControllerMessages::MigrateUp(responder)),
        Button::ShowPersons => Some(ControllerMessages::GetPersons(responder)),
        Button::Quit => None,
    }
}

/// The request that `button` sends (see `request_of`).
pub fn button_request<R>(button: Button, responder: R) -> (request: Option<ControllerMessages<R>>)
    ensures
        request == request_of(button, responder),
{
    match button {
        Button::MigrateDown => Some(ControllerMessages::MigrateDown(responder)),
        Button::MigrateToLatest => Some(ControllerMessages::MigrateToLatest(responder)),
        Button::MigrateUp => Some(ControllerMessages::MigrateUp(responder)),
        Button::ShowPersons => Some(ControllerMessages::GetPersons(responder)),
        Button::Quit => None,
    }
}

/// How the first screen shows a schema version: for each button whether it
/// is enabled (`None`: left as it is), which button gets the focus, and the
/// text of the version label.
#[derive(Debug)]
pub struct SchemaScreen {
    pub migrate_down: Option<bool>,
    pub migrate_to_latest: Option<bool>,
    pub migrate_up: Option<bool>,
    pub show_persons: Option<bool>,
    pub focus: Option<Button>,
    pub version_label: String,
}

/// The version as the label writes it: 0 where none is set.
pub open spec fn version_text(v: SchemaVersion) -> Seq<char> {
    match v {
        SchemaVersion::NoneSet => "0"@,
        SchemaVersion::Expected(n) => decimal(n as nat),
        SchemaVersion::Unexpected(n) => decimal(n as nat),
    }
}

/// The enabled state of the buttons down, to latest, up and show persons
/// for a version: without a version one can only go up; with a known one,
/// down where it is above 0 and up where it is below the highest; with an
/// unknown one, no migration at all.
pub open spec fn button_states(v: SchemaVersion, max_version: usize) -> (Option<bool>, Option<bool>, Option<bool>, Option<bool>) {
    match v {
        SchemaVersion::NoneSet => (Some(false), Some(true), Some(true), Some(false)),
        SchemaVersion::Expected(n) => (Some(n > 0), Some(n < max_version), Some(n < max_version), Some(true)),
        SchemaVersion::Unexpected(_) => (Some(false), Some(false), Some(false), None),
    }
}

/// The button that gets the focus for a version.
pub open spec fn focus_for(v: SchemaVersion, max_version: usize) -> Option<Button> {
    match v {
        SchemaVersion::NoneSet => Some(Button::MigrateToLatest),
        SchemaVersion::Expected(n) => if n == max_version {
            Some(Button::MigrateDown)
        } else if n == 0 {
            Some(Button::MigrateToLatest)
        } else {
            None
        },
        SchemaVersion::Unexpected(_) => Some(Button::Quit),
    }
}

/// Whether `screen` is how the first screen shows `info`.
pub open spec fn shows_schema(screen: SchemaScreen, info: SchemaVersionInfo) -> bool {
    let (down, latest, up, persons) = button_states(info.current_version, info.max_version);
    &&& screen.migrate_down == down
    &&& screen.migrate_to_latest == latest
    &&& screen.migrate_up == up
    &&& screen.show_persons == persons
    &&& screen.focus == focus_for(info.current_version, info.max_version)
    &&& screen.version_label@ == "Current Version: "@ + version_text(info.current_version)
}

/// How the first screen shows the schema version `info` (see `shows_schema`).
pub fn schema_screen(info: &SchemaVersionInfo) -> (screen: SchemaScreen)
    ensures
        shows_schema(screen, *info),
{
    let max_version = info.max_version;
    let mut label = String::from_str("Current Version: ");
    match info.current_version {
        SchemaVersion::NoneSet => {
            proof { reveal_strlit("0"); }
            label.append("0");
            SchemaScreen {
                migrate_down: Some(false),
                migrate_to_latest: Some(true),
                migrate_up: Some(true),
                show_persons: Some(false),
                focus: Some(Button::MigrateToLatest),
                version_label: label,
            }
        },
        SchemaVersion::Expected(v) => {
            push_decimal(&mut label, v as u64);
            let focus = if v == max_version {
                Some(Button::MigrateDown)
            } else if v == 0 {
                Some(Button::MigrateToLatest)
            } else {
                None
            };
            SchemaScreen {
                migrate_down: Some(v > 0),
                migrate_to_latest: Some(v < max_version),
                migrate_up: Some(v < max_version),
                show_persons: Some(true),
                focus,
                version_label: label,
            }
        },
        SchemaVersion::Unexpected(v) => {
            push_decimal(&mut label, v as u64);
            SchemaScreen {
                migrate_down: Some(false),
                migrate_to_latest: Some(false),
                migrate_up: Some(false),
                show_persons: None,
                focus: Some(Button::Quit),
                version_label: label,
            }
        },
    }
}

/// The persons as the lines of a table, one per person.
pub open spec fn persons_table(persons: Seq<Person>) -> Seq<char> {
    join(persons.map_values(|p: Person| row_text(p.id, p.name@, p.age, p.state@)), "\n"@)
}

/// The text of the dialog that lists `persons` (see `persons_table`).
pub fn persons_text(persons: &Vec<Person>) -> (text: String)
    ensures
        text@ == persons_table(persons@),
{
    let mut rows: Vec<String> = Vec::new();
    let mut i: usize = 0;
    while i < persons.len()
        invariant
            i <= persons.len(),
            rows.len() == i,
            forall|j: int| 0 <= j < i ==> #[trigger] rows@[j]@ == row_text(
                persons@[j].id,
                persons@[j].name@,
                persons@[j].age,
                persons@[j].state@,
            ),
        decreases persons.len() - i,
    {
        rows.push(persons[i].format_row());
        i = i + 1;
    }
    let text = join_lines(&rows, "\n");
    assert(rows@.map_values(|l: String| l@) =~= persons@.map_values(
        |p: Person| row_text(p.id, p.name@, p.age, p.state@),
    ));
    text
}

/// What the user interface does with what it found on one of its pending
/// answer channels.
#[derive(Debug)]
pub enum ResponseAction {
    /// No answer yet: keep waiting on the channel.
    Wait,
    /// Show the persons in a dialog with this text.
    ShowPersons(String),
    /// Show the schema version so.
    ShowSchema(SchemaScreen),
    /// The model refused the request: report the error.
    Failed(Error),
    /// The channel was closed without an answer: report it.
    Closed,
}

impl ResponseAction {
    /// Whether the answer channel is kept for a later look.
    pub open spec fn keeps_channel(self) -> bool {
        self is Wait
    }
}

/// The user interface's decision on what it found on an answer channel.
pub fn response_action(signal: Signal<Result<ModelValues, Error>>) -> (action: ResponseAction)
    ensures
        match signal {
            Signal::Empty => action is Wait,
            Signal::Received(Ok(ModelValues::Persons(persons))) =>
                action matches ResponseAction::ShowPersons(text) && text@ == persons_table(persons@),
            Signal::Received(Ok(ModelValues::SchemaVersionInfo(info))) =>
                action matches ResponseAction::ShowSchema(screen) && shows_schema(screen, info),
            Signal::Received(Err(e)) => action == ResponseAction::Failed(e),
            Signal::Closed => action is Closed,
        },
{
    match signal {
        Signal::Empty => ResponseAction::Wait,
        Signal::Received(Ok(ModelValues::Persons(persons))) => ResponseAction::ShowPersons(
            persons_text(&persons),
        ),
        Signal::Received(Ok(ModelValues::SchemaVersionInfo(info))) => ResponseAction::ShowSchema(
            schema_screen(&info),
        ),
        Signal::Received(Err(e)) => ResponseAction::Failed(e),
        Signal::Closed => ResponseAction::Closed,
    }
}

/// What the user interface does with what it found on its message channel.
#[derive(Clone, Copy, Debug, PartialEq, Eq, Structural)]
pub enum InboxAction {
    /// Nothing to do: go on.
    KeepGoing,
    /// Report `state` to the task, end the worker's loop, and close the
    /// screen and wake the task where asked to.
    Finish { state: UiState, close_screen: bool, wake: bool },
}

/// The user interface's decision on its message channel: a request to quit
/// closes the screen, reports that the task has finished and wakes it; a
/// closed channel reports the end without closing the screen or waking the
/// task.
pub fn inbox_action(signal: Signal<UiMessages>) -> (action: InboxAction)
    ensures
        action == match signal {
            Signal::Empty => InboxAction::KeepGoing,
            Signal::Received(_) => InboxAction::Finish {
                state: UiState::Finished,
                close_screen: true,
                wake: true,
            },
            Signal::Closed => InboxAction::Finish {
                state: UiState::Finished,
                close_screen: false,
                wake: false,
            },
        },
{
    match signal {
        Signal::Empty => InboxAction::KeepGoing,
        Signal::Received(UiMessages::UiRequestsQuit) => InboxAction::Finish {
            state: UiState::Finished,
            close_screen: true,
            wake: true,
        },
        Signal::Closed => InboxAction::Finish {
            state: UiState::Finished,
            close_screen: false,
            wake: false,
        },
    }
}

/// A migration button is enabled exactly when the model, at the version the
/// screen shows, would accept the request: "Migrate down" when the model
/// finds a version to go down to, "Migrate up" when it finds one to go up to.
pub proof fn lemma_migration_buttons_match_model(v: DbSchemaVersion)
    ensures
        ({
            let (down, latest, up, persons) = button_states(schema_version_of(v), MAX_VERSION);
            &&& down == Some(down_target(v) is Ok)
            &&& up == Some(up_target(v) is Ok)
        }),
{
}

/// The screen that shows the model's answer for a database version (to a
/// request for the version, or to a migration that reached it) enables
/// "Migrate down" and "Migrate up" exactly when the model, at that version,
/// would accept those requests.
pub proof fn lemma_answered_screen_matches_model(migration: Migration, v: DbSchemaVersion)
    ensures
        <ModelValues as vstd::std_specs::convert::FromSpec<DbSchemaVersion>>::from_spec(v) matches
            ModelValues::SchemaVersionInfo(info) && ({
            let (down, latest, up, persons) = button_states(info.current_version, info.max_version);
            &&& down == Some(down_target(v) is Ok)
            &&& up == Some(up_target(v) is Ok)
        }),
        migration_answer(migration, Ok(v)) matches Ok(ModelValues::SchemaVersionInfo(info)) && ({
            let (down, latest, up, persons) = button_states(info.current_version, info.max_version);
            &&& down == Some(down_target(v) is Ok)
            &&& up == Some(up_target(v) is Ok)
        }),
{
}

/// The pace of the user interface's loop, in nanoseconds since a fixed
/// instant: a frame lasts `frame`; the loop waits for messages until a
/// deadline, `timeout` after the start of the last frame; the screen is
/// refreshed at the start of each frame.
pub struct FrameClock {
    frame: u64,
    last_frame: u64,
    timeout: u64,
    refresh: bool,
}

impl FrameClock {
    /// The wait never exceeds a frame, and the deadline is a time.
    #[verifier::type_invariant]
    closed spec fn wait_within_frame(self) -> bool {
        &&& self.timeout <= self.frame
        &&& self.last_frame + self.timeout <= u64::MAX
    }

    /// The length of a frame.
    pub closed spec fn frame_length(self) -> u64 {
        self.frame
    }

    /// The start of the last frame.
    pub closed spec fn last_frame_start(self) -> u64 {
        self.last_frame
    }

    /// How long after the start of the last frame the wait ends.
    pub closed spec fn wait(self) -> u64 {
        self.timeout
    }

    /// Whether the screen is refreshed in the next round.
    pub closed spec fn refresh_due(self) -> bool {
        self.refresh
    }

    /// The end of the current wait.
    pub open spec fn deadline_of(self) -> int {
        self.last_frame_start() + self.wait()
    }

    /// A clock whose first frame starts at `start`, with a refresh due.
    pub fn new(frame: u64, start: u64) -> (clock: FrameClock)
        requires
            start + frame <= u64::MAX,
        ensures
            clock.frame_length() == frame,
            clock.last_frame_start() == start,
            clock.wait() == frame,
            clock.refresh_due(),
    {
        FrameClock { frame, last_frame: start, timeout: frame, refresh: true }
    }

    /// The start of a round in which `something_happened` on the screen:
    /// answers whether to redraw the screen and whether to send it a refresh
    /// event first. Where something happened the wait ends at once.
    pub fn begin_round(&mut self, something_happened: bool) -> (r: (bool, bool))
        ensures
            r == (something_happened || old(self).refresh_due(), old(self).refresh_due()),
            final(self).frame_length() == old(self).frame_length(),
            final(self).last_frame_start() == old(self).last_frame_start(),
            final(self).refresh_due() == old(self).refresh_due(),
            final(self).wait() == (if something_happened { 0 } else { old(self).wait() }),
            final(self).wait() <= final(self).frame_length(),
    {
        proof { use_type_invariant(&*self); }
        let redraw = something_happened || self.refresh;
        let send_refresh = self.refresh;
        if something_happened {
            self.timeout = 0;
        }
        (redraw, send_refresh)
    }

    /// The end of the current wait.
    pub fn deadline(&self) -> (d: u64)
        ensures
            d == self.deadline_of(),
    {
        proof { use_type_invariant(self); }
        self.last_frame + self.timeout
    }

    /// Whether a wait for messages that has come to `now` is over.
    pub fn wait_over(&self, now: u64) -> (over: bool)
        ensures
            over == (now > self.deadline_of()),
    {
        now > self.deadline()
    }

    /// The end of a round at `now` (a clock that never goes back): where the
    /// deadline has passed, a new frame starts now with a refresh due;
    /// otherwise no refresh is due and the next wait, still counted from the
    /// start of the last frame, lasts what was left of this one.
    pub fn end_round(&mut self, now: u64)
        requires
            now >= old(self).last_frame_start(),
            now + old(self).frame_length() <= u64::MAX,
        ensures
            final(self).frame_length() == old(self).frame_length(),
            final(self).wait() <= final(self).frame_length(),
            now >= old(self).deadline_of() ==> {
                &&& final(self).last_frame_start() == now
                &&& final(self).wait() == old(self).frame_length()
                &&& final(self).refresh_due()
            },
            now < old(self).deadline_of() ==> {
                &&& final(self).last_frame_start() == old(self).last_frame_start()
                &&& final(self).wait() == old(self).deadline_of() - now
                &&& !final(self).refresh_due()
            },
    {
        proof { use_type_invariant(&*self); }
        let next_frame = self.last_frame + self.timeout;
        if now >= next_frame {
            self.last_frame = now;
            self.refresh = true;
            self.timeout = self.frame;
        } else {
            self.refresh = false;
            self.timeout = next_frame - now;
        }
    }
}

} // verus!
