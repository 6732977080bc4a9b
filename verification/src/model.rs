//! The model: the task that owns the database.

use vstd::prelude::*;
use crate::error::Error;
use crate::lifecycle::{PollResult, PollStep, Signal};
use crate::migrations::{
    db_version_number, lemma_persons_columns, schema_at, schema_version_of, DbSchemaVersion, SchemaVersion, SchemaVersionInfo, MAX_VERSION,
};
use crate::person::Person;

verus! {

/// A request to the model. `R` is the channel on which the answer goes back.
#[derive(Debug)]
pub enum ModelMessages<R> {
    GetModelSchemaVersion(R),
    GetPersons(R),
    MigrateDown(R),
    MigrateToLatest(R),
    MigrateUp(R),
    UiRequestsQuit,
}

/// The life of the model task.
#[derive(Clone, Copy, Debug, PartialEq, Eq, Structural)]
pub enum ModelState {
    New,
    Running,
    Finished,
}

/// How a model state is written in messages.
pub open spec fn model_state_name(s: ModelState) -> Seq<char> {
    match s {
        ModelState::New => "New"@,
        ModelState::Running => "Running"@,
        ModelState::Finished => "Finished"@,
    }
}

impl ModelState {
    /// The name of the state, as messages write it.
    pub fn name(&self) -> (n: &'static str)
        ensures
            n@ == model_state_name(*self),
    {
        match self {
            ModelState::New => "New",
            ModelState::Running => "Running",
            ModelState::Finished => "Finished",
        }
    }
}

/// The model task as its poll sees it: its state, whether it still holds
/// the channels that its worker is to be started with, and whether it has
/// the channel on which the worker reports state changes.
pub struct Model {
    state: ModelState,
    holds_channels: bool,
    has_state_receiver: bool,
}

impl Model {
    /// A new model holds its channels until its first poll starts the
    /// worker with them; from then on it has the state channel.
    #[verifier::type_invariant]
    closed spec fn channels_until_started(self) -> bool {
        &&& (self.state == ModelState::New) == self.holds_channels
        &&& self.state != ModelState::New ==> self.has_state_receiver
    }

    /// The state of the task.
    pub closed spec fn current_state(self) -> ModelState {
        self.state
    }

    /// Whether the task still holds the channels for its worker.
    pub closed spec fn holds_channels(self) -> bool {
        self.holds_channels
    }

    /// Whether the task has the channel on which its worker reports.
    pub closed spec fn has_state_receiver(self) -> bool {
        self.has_state_receiver
    }

    /// A new model, which holds the channels for its worker.
    pub fn new() -> (r: Result<Model, Error>)
        ensures
            r matches Ok(m) && m.current_state() == ModelState::New && m.holds_channels()
                && !m.has_state_receiver(),
    {
        Ok(Model { state: ModelState::New, holds_channels: true, has_state_receiver: false })
    }

    /// The state of the task.
    pub fn state(&self) -> (s: ModelState)
        ensures
            s == self.current_state(),
    {
        self.state
    }

    /// The first decision of a poll. A new task hands its channels to its
    /// worker, which `Spawn` asks to start, and runs; a running or finished
    /// one looks at its state channel, or fails where it has none.
    pub fn begin_poll(&mut self) -> (step: PollStep)
        ensures
            !final(self).holds_channels(),
            old(self).current_state() != ModelState::New ==> old(self).has_state_receiver(),
            old(self).current_state() == ModelState::New ==> {
                &&& step is Spawn
                &&& final(self).current_state() == ModelState::Running
                &&& final(self).has_state_receiver()
            },
            old(self).current_state() != ModelState::New ==> {
                &&& final(self).current_state() == old(self).current_state()
                &&& final(self).has_state_receiver() == old(self).has_state_receiver()
                &&& step == (if old(self).has_state_receiver() {
                    PollStep::AwaitStateChange
                } else {
                    PollStep::Ready(Err(Error::ModelMissingStateReceiver))
                })
            },
    {
        proof { use_type_invariant(&*self); }
        if self.state == ModelState::New {
            *self = Model { state: ModelState::Running, holds_channels: false, has_state_receiver: true };
            PollStep::Spawn
        } else {
            self.holds_channels = false;
            if self.has_state_receiver {
                PollStep::AwaitStateChange
            } else {
                PollStep::Ready(Err(Error::ModelMissingStateReceiver))
            }
        }
    }

    /// The answer of a poll once the state is settled: ready where the task
    /// has finished, pending otherwise.
    pub fn settle(&self) -> (r: PollResult)
        ensures
            r == (if self.current_state() == ModelState::Finished {
                PollResult::Ready(Ok(()))
            } else {
                PollResult::Pending
            }),
    {
        if self.state == ModelState::Finished {
            PollResult::Ready(Ok(()))
        } else {
            PollResult::Pending
        }
    }

    /// The rest of a poll that found `signal` on the state channel. A new
    /// state is taken, except `New`, which is refused; an empty or closed
    /// channel changes nothing.
    pub fn take_state_signal(&mut self, signal: Signal<ModelState>) -> (r: PollResult)
        requires
            old(self).current_state() != ModelState::New,
        ensures
            final(self).holds_channels() == old(self).holds_channels(),
            final(self).has_state_receiver() == old(self).has_state_receiver(),
            final(self).current_state() != ModelState::New,
            match signal {
                Signal::Received(next) => if next == ModelState::New {
                    &&& final(self).current_state() == old(self).current_state()
                    &&& r == PollResult::Ready(Err(Error::InvalidModelStateTransition(
                        old(self).current_state(),
                        ModelState::New,
                    )))
                } else {
                    &&& final(self).current_state() == next
                    &&& r == (if next == ModelState::Finished {
                        PollResult::Ready(Ok(()))
                    } else {
                        PollResult::Pending
                    })
                },
                _ => {
                    &&& final(self).current_state() == old(self).current_state()
                    &&& r == (if old(self).current_state() == ModelState::Finished {
                        PollResult::Ready(Ok(()))
                    } else {
                        PollResult::Pending
                    })
                },
            },
    {
        proof { use_type_invariant(&*self); }
        match signal {
            Signal::Received(next) => {
                if next == ModelState::New {
                    return PollResult::Ready(
                        Err(Error::InvalidModelStateTransition(self.state, ModelState::New)),
                    );
                }
                self.state = next;
            },
            _ => {},
        }
        self.settle()
    }
}

/// What the model answers to a request that it serves.
#[derive(Debug)]
pub enum ModelValues {
    Persons(Vec<Person>),
    SchemaVersionInfo(SchemaVersionInfo),
}

impl From<DbSchemaVersion> for ModelValues {
    /// The version information for a version read from the database.
    fn from(schema_version: DbSchemaVersion) -> (values: Self) {
        ModelValues::SchemaVersionInfo(SchemaVersionInfo::from_sqlite_schema_version(schema_version))
    }
}

impl vstd::std_specs::convert::FromSpecImpl<DbSchemaVersion> for ModelValues {
    open spec fn obeys_from_spec() -> bool {
        true
    }

    open spec fn from_spec(schema_version: DbSchemaVersion) -> ModelValues {
        ModelValues::SchemaVersionInfo(SchemaVersionInfo {
            current_version: schema_version_of(schema_version),
            max_version: MAX_VERSION,
        })
    }
}

/// The query that lists the persons where the table has no `state` column.
pub const SQL_SELECT_FROM_PERSONS_V1: &'static str = "SELECT id, name, age FROM persons";

/// The query that lists the persons where the table has a `state` column.
pub const SQL_SELECT_FROM_PERSONS_V2: &'static str = "SELECT id, name, age, state FROM persons";

/// Whether one of the column names is `state`.
pub open spec fn has_state_column(column_names: Seq<Seq<char>>) -> bool {
    exists|i: int| 0 <= i < column_names.len() && column_names[i] == "state"@
}

/// The query with which the model lists the persons, given the names of the
/// columns of the `persons` table (none where there is no such table): the
/// values are not available without the table; with a `state` column the
/// query reads it too.
pub fn persons_query(column_names: &Vec<String>) -> (r: Result<&'static str, Error>)
    ensures
        match r {
            Ok(sql) => {
                &&& column_names.len() > 0
                &&& sql@ == (if has_state_column(column_names@.map_values(|n: String| n@)) {
                    SQL_SELECT_FROM_PERSONS_V2@
                } else {
                    SQL_SELECT_FROM_PERSONS_V1@
                })
            },
            Err(e) => column_names.len() == 0 && e == Error::ModelSchemaValuesNotAvailable,
        },
{
    if column_names.len() == 0 {
        return Err(Error::ModelSchemaValuesNotAvailable);
    }
    let ghost names = column_names@.map_values(|n: String| n@);
    let state = String::from_str("state");
    let mut found = false;
    let mut i: usize = 0;
    while i < column_names.len()
        invariant
            i <= column_names.len(),
            names == column_names@.map_values(|n: String| n@),
            state@ == "state"@,
            found <==> exists|j: int| 0 <= j < i && names[j] == "state"@,
        decreases column_names.len() - i,
    {
        if column_names[i] == state {
            found = true;
        }
        proof {
            if found && !(exists|j: int| 0 <= j < i && names[j] == "state"@) {
                assert(names[i as int] == "state"@);
            }
        }
        i = i + 1;
    }
    if found {
        Ok(SQL_SELECT_FROM_PERSONS_V2)
    } else {
        Ok(SQL_SELECT_FROM_PERSONS_V1)
    }
}

/// A request about the schema that the model serves by a migration.
#[derive(Clone, Copy, Debug, PartialEq, Eq, Structural)]
pub enum Migration {
    Down,
    ToLatest,
    Up,
}

/// The answer to a migration request: the version information for the
/// version read after the migration, or the failure that the migration
/// library reported (by its text), named after the request.
pub open spec fn migration_answer(migration: Migration, outcome: Result<DbSchemaVersion, String>) -> Result<ModelValues, Error> {
    match outcome {
        Ok(v) => Ok(ModelValues::SchemaVersionInfo(SchemaVersionInfo {
            current_version: schema_version_of(v),
            max_version: MAX_VERSION,
        })),
        Err(text) => Err(match migration {
            Migration::Down => Error::ModelSchemaMigrateDownFailed(text),
            Migration::ToLatest => Error::ModelSchemaMigrateToLatestFailed(text),
            Migration::Up => Error::ModelSchemaMigrateUpFailed(text),
        }),
    }
}

/// The answer to a migration request (see `migration_answer`).
pub fn migration_response(migration: Migration, outcome: Result<DbSchemaVersion, String>) -> (r: Result<ModelValues, Error>)
    ensures
        r == migration_answer(migration, outcome),
{
    match outcome {
        Ok(v) => Ok(ModelValues::SchemaVersionInfo(SchemaVersionInfo::from_sqlite_schema_version(v))),
        Err(text) => Err(match migration {
            Migration::Down => Error::ModelSchemaMigrateDownFailed(text),
            Migration::ToLatest => Error::ModelSchemaMigrateToLatestFailed(text),
            Migration::Up => Error::ModelSchemaMigrateUpFailed(text),
        }),
    }
}

/// What the model's worker does with what arrived on its request channel.
#[derive(Debug)]
pub enum ModelAction<R> {
    /// Read the schema version and answer it on `R`.
    ReadVersion(R),
    /// List the persons and answer them on `R`.
    ListPersons(R),
    /// Carry out the migration and answer its outcome on `responder`.
    Migrate { migration: Migration, responder: R },
    /// Report `state` to the task, wake it where asked, and stop.
    Finish { state: ModelState, wake: bool },
}

/// The model's decision on what its request channel yielded (`None` once it
/// is closed): each request is served and answered on its own channel; a
/// request to quit, or a closed channel, finishes the task, wakes it and
/// stops the worker.
pub open spec fn model_action_of<R>(received: Option<ModelMessages<R>>) -> ModelAction<R> {
    match received {
        Some(ModelMessages::GetModelSchemaVersion(r)) => ModelAction::ReadVersion(r),
        Some(ModelMessages::GetPersons(r)) => ModelAction::ListPersons(r),
        Some(ModelMessages::MigrateDown(r)) => ModelAction::Migrate { migration: Migration::Down, responder: r },
        Some(ModelMessages::MigrateToLatest(r)) => ModelAction::Migrate {
            migration: Migration::ToLatest,
            responder: r,
        },
        Some(ModelMessages::MigrateUp(r)) => ModelAction::Migrate { migration: Migration::Up, responder: r },
        Some(ModelMessages::UiRequestsQuit) => ModelAction::Finish { state: ModelState::Finished, wake: true },
        None => ModelAction::Finish { state: ModelState::Finished, wake: true },
    }
}

/// The model's decision on what its request channel yielded (see
/// `model_action_of`).
pub fn model_step<R>(received: Option<ModelMessages<R>>) -> (action: ModelAction<R>)
    ensures
        action == model_action_of(received),
{
    match received {
        Some(ModelMessages::GetModelSchemaVersion(r)) => ModelAction::ReadVersion(r),
        Some(ModelMessages::GetPersons(r)) => ModelAction::ListPersons(r),
        Some(ModelMessages::MigrateDown(r)) => ModelAction::Migrate { migration: Migration::Down, responder: r },
        Some(ModelMessages::MigrateToLatest(r)) => ModelAction::Migrate {
            migration: Migration::ToLatest,
            responder: r,
        },
        Some(ModelMessages::MigrateUp(r)) => ModelAction::Migrate { migration: Migration::Up, responder: r },
        Some(ModelMessages::UiRequestsQuit) => ModelAction::Finish { state: ModelState::Finished, wake: true },
        None => ModelAction::Finish { state: ModelState::Finished, wake: true },
    }
}

/// Every request that the model serves is answered on the channel it came
/// with, and only a request to quit or a closed channel ends the worker,
/// reporting `Finished`.
pub proof fn lemma_model_step_answers_each_request<R>(received: Option<ModelMessages<R>>)
    ensures
        match model_action_of(received) {
            ModelAction::ReadVersion(r) => received == Some(ModelMessages::GetModelSchemaVersion(r)),
            ModelAction::ListPersons(r) => received == Some(ModelMessages::GetPersons(r)),
            ModelAction::Migrate { migration, responder } => received == Some(match migration {
                Migration::Down => ModelMessages::MigrateDown(responder),
                Migration::ToLatest => ModelMessages::MigrateToLatest(responder),
                Migration::Up => ModelMessages::MigrateUp(responder),
            }),
            ModelAction::Finish { state, wake } => {
                &&& state == ModelState::Finished
                &&& wake
                &&& (received is None || received == Some(ModelMessages::<R>::UiRequestsQuit))
            },
        },
{
}

/// The version number that version information reports: 0 where none is
/// set.
pub open spec fn reported_number(v: SchemaVersion) -> nat {
    match v {
        SchemaVersion::NoneSet => 0,
        SchemaVersion::Expected(n) => n as nat,
        SchemaVersion::Unexpected(n) => n as nat,
    }
}

/// Whether `info` reports the database version `v` faithfully: the same
/// number, no version exactly where the database has none, a known version
/// exactly where the migrations lead to it, an unknown one exactly where
/// they do not, and the highest version that the migrations reach.
pub open spec fn reports_version(info: SchemaVersionInfo, v: DbSchemaVersion) -> bool {
    &&& reported_number(info.current_version) == db_version_number(v)
    &&& (info.current_version is NoneSet <==> v is NoneSet)
    &&& (info.current_version is Expected <==> v is Inside)
    &&& (info.current_version is Unexpected <==> v is Outside)
    &&& info.max_version == MAX_VERSION
}

/// The model's answer to a request for the schema version reports the
/// version that it read from the database faithfully.
pub proof fn lemma_version_answer_reports_database_version(v: DbSchemaVersion)
    ensures
        <ModelValues as vstd::std_specs::convert::FromSpec<DbSchemaVersion>>::from_spec(v) matches
            ModelValues::SchemaVersionInfo(info) && reports_version(info, v),
{
}

/// The answer to a migration that succeeded reports the version reached
/// faithfully, and is the very answer that a request for the version would
/// then get, whichever migration it was.
pub proof fn lemma_migration_answer_reports_version_reached(migration: Migration, v: DbSchemaVersion)
    ensures
        migration_answer(migration, Ok(v)) matches Ok(ModelValues::SchemaVersionInfo(info)) && reports_version(
            info,
            v,
        ),
        migration_answer(migration, Ok(v)) == Ok::<ModelValues, Error>(
            <ModelValues as vstd::std_specs::convert::FromSpec<DbSchemaVersion>>::from_spec(v),
        ),
{
}

/// A migration that failed is answered by the error of its own kind, with
/// the migration library's text, whichever migration it was.
pub proof fn lemma_failed_migration_answer(migration: Migration, text: String)
    ensures
        migration_answer(migration, Err(text)) matches Err(e) && (match e {
            Error::ModelSchemaMigrateDownFailed(t) => migration == Migration::Down && t == text,
            Error::ModelSchemaMigrateToLatestFailed(t) => migration == Migration::ToLatest && t == text,
            Error::ModelSchemaMigrateUpFailed(t) => migration == Migration::Up && t == text,
            _ => false,
        }),
{
}

/// At every version of the schema that has the `persons` table, the model
/// lists the persons with the query that reads the `state` column exactly
/// where the table has that column (from version 2 on), given the names of
/// the table's columns in any order.
pub proof fn lemma_persons_query_follows_schema(k: nat, names: Seq<Seq<char>>)
    requires
        1 <= k <= MAX_VERSION,
        names.to_set() == schema_at(k)["persons"@],
    ensures
        names.len() > 0,
        has_state_column(names) <==> k >= 2,
{
    lemma_persons_columns(k);
    assert(names.to_set().contains("id"@));
    if has_state_column(names) {
        let i = choose|i: int| 0 <= i < names.len() && names[i] == "state"@;
        assert(names.to_set().contains(names[i]));
    }
    if k >= 2 {
        assert(names.to_set().contains("state"@));
    }
}

} // verus!
