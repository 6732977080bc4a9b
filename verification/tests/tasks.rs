use mvp::app_controller::{AppController, AppControllerMessages, AppControllerState, AppControllerStep};
use mvp::controller::{route, Controller, ControllerMessages, ControllerRoute, ControllerState, QuitNotice};
use mvp::error::Error;
use mvp::lifecycle::{PollResult, PollStep, Signal};
use mvp::migrations::{DbSchemaVersion, SchemaVersion};
use mvp::model::{
    migration_response, model_step, persons_query, Migration, Model, ModelAction, ModelMessages, ModelState,
    ModelValues,
    SQL_SELECT_FROM_PERSONS_V1, SQL_SELECT_FROM_PERSONS_V2,
};
use mvp::ui::{Ui, UiMessages, UiState};

#[test]
fn app_controller_starts_once_then_finishes() {
    let mut a = AppController::new().unwrap();
    assert_eq!(a.state(), AppControllerState::New);
    assert_eq!(a.poll_step(), AppControllerStep::StartTasks);
    assert_eq!(a.state(), AppControllerState::Running);
    assert_eq!(a.poll_step(), AppControllerStep::Finish);
    assert_eq!(a.poll_step(), AppControllerStep::Finish);
}

#[test]
fn controller_lifecycle() {
    let mut c = Controller::new().unwrap();
    assert_eq!(c.state(), ControllerState::New);
    assert!(matches!(c.begin_poll(), PollStep::Spawn));
    assert_eq!(c.state(), ControllerState::Running);
    assert!(matches!(c.settle(), PollResult::Pending));
    assert!(matches!(c.begin_poll(), PollStep::AwaitStateChange));
    assert!(matches!(c.take_state_signal(Signal::Empty), PollResult::Pending));
    assert!(matches!(
        c.take_state_signal(Signal::Received(ControllerState::New)),
        PollResult::Ready(Err(Error::InvalidControllerStateTransition(
            ControllerState::Running,
            ControllerState::New
        )))
    ));
    assert_eq!(c.state(), ControllerState::Running);
    assert!(matches!(c.take_state_signal(Signal::Closed), PollResult::Ready(Err(Error::ControllerStateSenderClosed))));
    assert!(matches!(
        c.take_state_signal(Signal::Received(ControllerState::Finished)),
        PollResult::Ready(Ok(()))
    ));
    assert_eq!(c.state(), ControllerState::Finished);
    assert!(matches!(c.begin_poll(), PollStep::AwaitStateChange));
    assert!(matches!(c.take_state_signal(Signal::Empty), PollResult::Ready(Ok(()))));
}

#[test]
fn model_lifecycle_ignores_closed_channel() {
    let mut m = Model::new().unwrap();
    assert!(matches!(m.begin_poll(), PollStep::Spawn));
    assert!(matches!(m.take_state_signal(Signal::Closed), PollResult::Pending));
    assert!(matches!(
        m.take_state_signal(Signal::Received(ModelState::New)),
        PollResult::Ready(Err(Error::InvalidModelStateTransition(ModelState::Running, ModelState::New)))
    ));
    assert!(matches!(m.take_state_signal(Signal::Received(ModelState::Finished)), PollResult::Ready(Ok(()))));
    assert_eq!(m.state(), ModelState::Finished);
}

#[test]
fn ui_lifecycle_gives_up_receiver_when_ready() {
    let mut u = Ui::new().unwrap();
    assert!(matches!(u.begin_poll(), PollStep::Spawn));
    assert!(matches!(u.settle(), PollResult::Pending));
    assert!(matches!(u.begin_poll(), PollStep::AwaitStateChange));
    assert!(matches!(u.take_state_signal(Signal::Empty), PollResult::Pending));
    assert!(matches!(u.take_state_signal(Signal::Received(UiState::Finished)), PollResult::Ready(Ok(()))));
    assert!(matches!(u.begin_poll(), PollStep::Ready(Err(Error::UiMissingStateReceiver))));
}

#[test]
fn ui_refuses_new_state() {
    let mut u = Ui::new().unwrap();
    u.begin_poll();
    assert!(matches!(
        u.take_state_signal(Signal::Received(UiState::New)),
        PollResult::Ready(Err(Error::InvalidUiStateTransition(UiState::Running, UiState::New)))
    ));
    assert_eq!(u.state(), UiState::Running);
}

#[test]
fn route_forwards_requests_with_their_responder() {
    match route(Some(ControllerMessages::GetPersons(7u32))) {
        ControllerRoute::ForwardToModel(ModelMessages::GetPersons(r)) => assert_eq!(r, 7),
        other => panic!("unexpected {:?}", other),
    }
    match route(Some(ControllerMessages::MigrateDown(1u32))) {
        ControllerRoute::ForwardToModel(ModelMessages::MigrateDown(r)) => assert_eq!(r, 1),
        other => panic!("unexpected {:?}", other),
    }
    match route(Some(ControllerMessages::MigrateToLatest(2u32))) {
        ControllerRoute::ForwardToModel(ModelMessages::MigrateToLatest(r)) => assert_eq!(r, 2),
        other => panic!("unexpected {:?}", other),
    }
    match route(Some(ControllerMessages::MigrateUp(3u32))) {
        ControllerRoute::ForwardToModel(ModelMessages::MigrateUp(r)) => assert_eq!(r, 3),
        other => panic!("unexpected {:?}", other),
    }
    match route(Some(ControllerMessages::GetModelSchemaVersion(4u32))) {
        ControllerRoute::ForwardToModel(ModelMessages::GetModelSchemaVersion(r)) => assert_eq!(r, 4),
        other => panic!("unexpected {:?}", other),
    }
}

#[test]
fn route_spreads_quit_and_stops_on_close() {
    match route::<u32>(Some(ControllerMessages::UiRequestsQuit)) {
        ControllerRoute::Shutdown { notices, wake } => {
            assert!(wake);
            assert_eq!(notices.len(), 4);
            assert!(matches!(notices[0], QuitNotice::ToModel(ModelMessages::UiRequestsQuit)));
            assert!(matches!(notices[1], QuitNotice::ToUi(UiMessages::UiRequestsQuit)));
            assert!(matches!(notices[2], QuitNotice::ToAppController(AppControllerMessages::UiRequestsQuit)));
            assert!(matches!(notices[3], QuitNotice::State(ControllerState::Finished)));
        },
        other => panic!("unexpected {:?}", other),
    }
    assert!(matches!(route::<u32>(None), ControllerRoute::Stop));
}

#[test]
fn persons_query_by_columns() {
    assert!(matches!(persons_query(&vec![]), Err(Error::ModelSchemaValuesNotAvailable)));
    let v1 = vec!["id".to_string(), "name".to_string(), "age".to_string()];
    assert_eq!(persons_query(&v1).unwrap(), SQL_SELECT_FROM_PERSONS_V1);
    let v2 = vec!["id".to_string(), "name".to_string(), "age".to_string(), "state".to_string()];
    assert_eq!(persons_query(&v2).unwrap(), SQL_SELECT_FROM_PERSONS_V2);
    assert_eq!(SQL_SELECT_FROM_PERSONS_V2, "SELECT id, name, age, state FROM persons");
}

#[test]
fn migration_responses() {
    match migration_response(Migration::Up, Ok(DbSchemaVersion::Inside(2))) {
        Ok(ModelValues::SchemaVersionInfo(info)) => {
            assert_eq!(info.current_version, SchemaVersion::Expected(2));
            assert_eq!(info.max_version, 2);
        },
        other => panic!("unexpected {:?}", other),
    }
    assert!(matches!(
        migration_response(Migration::Down, Err("e1".to_string())),
        Err(Error::ModelSchemaMigrateDownFailed(t)) if t == "e1"
    ));
    assert!(matches!(
        migration_response(Migration::ToLatest, Err("e2".to_string())),
        Err(Error::ModelSchemaMigrateToLatestFailed(t)) if t == "e2"
    ));
    assert!(matches!(
        migration_response(Migration::Up, Err("e3".to_string())),
        Err(Error::ModelSchemaMigrateUpFailed(t)) if t == "e3"
    ));
}

#[test]
fn model_values_from_db_version() {
    match ModelValues::from(DbSchemaVersion::Outside(5)) {
        ModelValues::SchemaVersionInfo(info) => assert_eq!(info.current_version, SchemaVersion::Unexpected(5)),
        other => panic!("unexpected {:?}", other),
    }
}

#[test]
fn model_step_serves_each_request() {
    assert!(matches!(model_step(Some(ModelMessages::GetModelSchemaVersion(1u32))), ModelAction::ReadVersion(1)));
    assert!(matches!(model_step(Some(ModelMessages::GetPersons(2u32))), ModelAction::ListPersons(2)));
    assert!(matches!(
        model_step(Some(ModelMessages::MigrateDown(3u32))),
        ModelAction::Migrate { migration: Migration::Down, responder: 3 }
    ));
    assert!(matches!(
        model_step(Some(ModelMessages::MigrateToLatest(4u32))),
        ModelAction::Migrate { migration: Migration::ToLatest, responder: 4 }
    ));
    assert!(matches!(
        model_step(Some(ModelMessages::MigrateUp(5u32))),
        ModelAction::Migrate { migration: Migration::Up, responder: 5 }
    ));
}

#[test]
fn model_step_finishes_on_quit_or_close() {
    assert!(matches!(
        model_step(Some(ModelMessages::<u32>::UiRequestsQuit)),
        ModelAction::Finish { state: ModelState::Finished, wake: true }
    ));
    assert!(matches!(
        model_step::<u32>(None),
        ModelAction::Finish { state: ModelState::Finished, wake: true }
    ));
}
