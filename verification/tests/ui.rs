use mvp::controller::ControllerMessages;
use mvp::error::Error;
use mvp::lifecycle::Signal;
use mvp::migrations::{migrate_down_target, migrate_up_target, DbSchemaVersion, SchemaVersion, SchemaVersionInfo};
use mvp::model::ModelValues;
use mvp::person::Person;
use mvp::ui::{
    button_request, inbox_action, persons_text, response_action, schema_screen, Button, FrameClock, InboxAction,
    ResponseAction, Ui, UiMessages, UiState,
};

fn info(v: SchemaVersion) -> SchemaVersionInfo {
    SchemaVersionInfo { current_version: v, max_version: 2 }
}

#[test]
fn schema_screen_without_version() {
    let s = schema_screen(&info(SchemaVersion::NoneSet));
    assert_eq!(s.migrate_down, Some(false));
    assert_eq!(s.migrate_to_latest, Some(true));
    assert_eq!(s.migrate_up, Some(true));
    assert_eq!(s.show_persons, Some(false));
    assert_eq!(s.focus, Some(Button::MigrateToLatest));
    assert_eq!(s.version_label, "Current Version: 0");
}

#[test]
fn schema_screen_known_versions() {
    let s = schema_screen(&info(SchemaVersion::Expected(1)));
    assert_eq!(
        (s.migrate_down, s.migrate_to_latest, s.migrate_up, s.show_persons),
        (Some(true), Some(true), Some(true), Some(true))
    );
    assert_eq!(s.focus, None);
    assert_eq!(s.version_label, "Current Version: 1");
    let s = schema_screen(&info(SchemaVersion::Expected(2)));
    assert_eq!(
        (s.migrate_down, s.migrate_to_latest, s.migrate_up, s.show_persons),
        (Some(true), Some(false), Some(false), Some(true))
    );
    assert_eq!(s.focus, Some(Button::MigrateDown));
    let s = schema_screen(&info(SchemaVersion::Expected(0)));
    assert_eq!(s.migrate_down, Some(false));
    assert_eq!(s.focus, Some(Button::MigrateToLatest));
}

#[test]
fn schema_screen_unknown_version() {
    let s = schema_screen(&info(SchemaVersion::Unexpected(12)));
    assert_eq!(
        (s.migrate_down, s.migrate_to_latest, s.migrate_up, s.show_persons),
        (Some(false), Some(false), Some(false), None)
    );
    assert_eq!(s.focus, Some(Button::Quit));
    assert_eq!(s.version_label, "Current Version: 12");
}

#[test]
fn buttons_agree_with_model() {
    for v in [
        DbSchemaVersion::NoneSet,
        DbSchemaVersion::Inside(1),
        DbSchemaVersion::Inside(2),
        DbSchemaVersion::Outside(3),
    ] {
        let s = schema_screen(&SchemaVersionInfo::from_sqlite_schema_version(v));
        assert_eq!(s.migrate_down, Some(migrate_down_target(v).is_ok()));
        assert_eq!(s.migrate_up, Some(migrate_up_target(v).is_ok()));
    }
}

#[test]
fn button_view_names() {
    assert_eq!(Button::MigrateDown.view_name(), "migrate_down_button");
    assert_eq!(Button::MigrateToLatest.view_name(), "migrate_to_latest_button");
    assert_eq!(Button::MigrateUp.view_name(), "migrate_up_button");
    assert_eq!(Button::ShowPersons.view_name(), "show_persons_button");
    assert_eq!(Button::Quit.view_name(), "quit_button");
}

#[test]
fn persons_dialog_text() {
    let persons = vec![
        Person { id: 1, name: "Ann".to_string(), age: 20, state: "".to_string() },
        Person { id: 22, name: "Ben".to_string(), age: 3, state: "WA".to_string() },
    ];
    let expected = format!("{}\n{}", persons[0].format_row(), persons[1].format_row());
    assert_eq!(persons_text(&persons), expected);
    assert_eq!(persons_text(&vec![]), "");
}

#[test]
fn response_actions() {
    assert!(matches!(response_action(Signal::Empty), ResponseAction::Wait));
    assert!(matches!(response_action(Signal::Closed), ResponseAction::Closed));
    assert!(matches!(
        response_action(Signal::Received(Err(Error::ModelSchemaValuesNotAvailable))),
        ResponseAction::Failed(Error::ModelSchemaValuesNotAvailable)
    ));
    match response_action(Signal::Received(Ok(ModelValues::Persons(vec![])))) {
        ResponseAction::ShowPersons(t) => assert_eq!(t, ""),
        other => panic!("unexpected {:?}", other),
    }
    match response_action(Signal::Received(Ok(ModelValues::SchemaVersionInfo(info(SchemaVersion::Expected(2)))))) {
        ResponseAction::ShowSchema(s) => assert_eq!(s.version_label, "Current Version: 2"),
        other => panic!("unexpected {:?}", other),
    }
}

#[test]
fn inbox_actions() {
    assert_eq!(inbox_action(Signal::Empty), InboxAction::KeepGoing);
    assert_eq!(
        inbox_action(Signal::Received(UiMessages::UiRequestsQuit)),
        InboxAction::Finish { state: UiState::Finished, close_screen: true, wake: true }
    );
    assert_eq!(
        inbox_action(Signal::Closed),
        InboxAction::Finish { state: UiState::Finished, close_screen: false, wake: false }
    );
}

#[test]
fn frame_clock_rounds() {
    let mut c = FrameClock::new(33, 1000);
    assert_eq!(c.deadline(), 1033);
    assert_eq!(c.begin_round(false), (true, true));
    c.end_round(1010);
    // not yet at the deadline: no refresh, the wait is what was left
    assert_eq!(c.deadline(), 1023);
    assert_eq!(c.begin_round(false), (false, false));
    assert!(!c.wait_over(1023));
    assert!(c.wait_over(1024));
    c.end_round(1040);
    assert_eq!(c.deadline(), 1073);
    assert_eq!(c.begin_round(true), (true, true));
    assert_eq!(c.deadline(), 1040);
}

#[test]
fn buttons_send_their_requests() {
    assert!(matches!(button_request(Button::MigrateDown, 1u32), Some(ControllerMessages::MigrateDown(1))));
    assert!(matches!(button_request(Button::MigrateToLatest, 2u32), Some(ControllerMessages::MigrateToLatest(2))));
    assert!(matches!(button_request(Button::MigrateUp, 3u32), Some(ControllerMessages::MigrateUp(3))));
    assert!(matches!(button_request(Button::ShowPersons, 4u32), Some(ControllerMessages::GetPersons(4))));
    assert!(button_request(Button::Quit, 5u32).is_none());
}

#[test]
fn ui_reports_whether_it_holds_its_state_channel() {
    let mut u = Ui::new().unwrap();
    assert!(!u.state_receiver_held());
    u.begin_poll();
    assert!(u.state_receiver_held());
    u.take_state_signal(Signal::Received(UiState::Finished));
    assert!(!u.state_receiver_held());
}
