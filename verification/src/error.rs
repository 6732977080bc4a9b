//! The errors of the program and the sentence that reports each.

use vstd::prelude::*;
use crate::controller::{controller_state_name, ControllerState};
use crate::model::{model_state_name, ModelState};
use crate::ui::{ui_state_name, UiState};

verus! {

/// An error of one of the tasks. The three failed migrations carry the
/// text with which the migration library reported its own error.
#[derive(Debug)]
pub enum Error {
    ControllerMissingStateReceiver,
    ControllerStateSenderClosed,
    InvalidControllerStateTransition(ControllerState, ControllerState),
    InvalidModelStateTransition(ModelState, ModelState),
    InvalidUiStateTransition(UiState, UiState),
    ModelMissingStateReceiver,
    ModelSchemaMigrateDownFailed(String),
    ModelSchemaMigrateToLatestFailed(String),
    ModelSchemaMigrateUpFailed(String),
    ModelSchemaMigrateDownNotAvailable,
    ModelSchemaMigrateUpNotAvailable,
    ModelSchemaValuesNotAvailable,
    UiMissingStateReceiver,
    UiWouldClobberStateReceiver,
}

/// The sentence that reports an error.
pub open spec fn error_text(e: Error) -> Seq<char> {
    match e {
        Error::ControllerMissingStateReceiver => "Controller is missing the state receiver"@,
        Error::ControllerStateSenderClosed => "Controller state sender is already closed"@,
        Error::InvalidControllerStateTransition(from, to) =>
            "Invalid ControllerState transition from "@ + controller_state_name(from) + " to "@
                + controller_state_name(to),
        Error::InvalidModelStateTransition(from, to) =>
            "Invalid ModelState transition from "@ + model_state_name(from) + " to "@
                + model_state_name(to),
        Error::InvalidUiStateTransition(from, to) =>
            "Invalid UiState transition from "@ + ui_state_name(from) + " to "@ + ui_state_name(to),
        Error::ModelMissingStateReceiver => "Model is missing the state receiver"@,
        Error::ModelSchemaMigrateDownFailed(msg) =>
            "The requested model schema migration to a lower version failed: "@ + msg@,
        Error::ModelSchemaMigrateToLatestFailed(msg) =>
            "The requested model schema migration to the latest version failed: "@ + msg@,
        Error::ModelSchemaMigrateUpFailed(msg) =>
            "The requested model schema migration to a higher version failed: "@ + msg@,
        Error::ModelSchemaMigrateDownNotAvailable =>
            "The requested model schema migration to a lower version is not available"@,
        Error::ModelSchemaMigrateUpNotAvailable =>
            "The requested model schema migration to a lower version is not available"@,
        Error::ModelSchemaValuesNotAvailable =>
            "The requested values are not available in the current version of the model schema"@,
        Error::UiMissingStateReceiver => "Ui is missing the state receiver"@,
        Error::UiWouldClobberStateReceiver => "Ui would clobber the state receiver"@,
    }
}

fn transition_text(kind: &str, from: &str, to: &str) -> (s: String)
    ensures
        s@ == "Invalid "@ + kind@ + " transition from "@ + from@ + " to "@ + to@,
{
    let mut s = String::from_str("Invalid ");
    s.append(kind);
    s.append(" transition from ");
    s.append(from);
    s.append(" to ");
    s.append(to);
    s
}

impl Error {
    /// The sentence that reports this error (see `error_text`).
    pub fn message(&self) -> (m: String)
        ensures
            m@ == error_text(*self),
    {
        match self {
            Error::ControllerMissingStateReceiver => String::from_str(
                "Controller is missing the state receiver",
            ),
            Error::ControllerStateSenderClosed => String::from_str(
                "Controller state sender is already closed",
            ),
            Error::InvalidControllerStateTransition(from, to) => {
                let m = transition_text("ControllerState", from.name(), to.name());
                proof {
                    reveal_strlit("Invalid ");
                    reveal_strlit("ControllerState");
                    reveal_strlit(" transition from ");
                    reveal_strlit("Invalid ControllerState transition from ");
                }
                assert(m@ =~= error_text(*self));
                m
            },
            Error::InvalidModelStateTransition(from, to) => {
                let m = transition_text("ModelState", from.name(), to.name());
                proof {
                    reveal_strlit("Invalid ");
                    reveal_strlit("ModelState");
                    reveal_strlit(" transition from ");
                    reveal_strlit("Invalid ModelState transition from ");
                }
                assert(m@ =~= error_text(*self));
                m
            },
            Error::InvalidUiStateTransition(from, to) => {
                let m = transition_text("UiState", from.name(), to.name());
                proof {
                    reveal_strlit("Invalid ");
                    reveal_strlit("UiState");
                    reveal_strlit(" transition from ");
                    reveal_strlit("Invalid UiState transition from ");
                }
                assert(m@ =~= error_text(*self));
                m
            },
            Error::ModelMissingStateReceiver => String::from_str("Model is missing the state receiver"),
            Error::ModelSchemaMigrateDownFailed(msg) => {
                let mut m = String::from_str(
                    "The requested model schema migration to a lower version failed: ",
                );
                m.append(msg.as_str());
                m
            },
            Error::ModelSchemaMigrateToLatestFailed(msg) => {
                let mut m = String::from_str(
                    "The requested model schema migration to the latest version failed: ",
                );
                m.append(msg.as_str());
                m
            },
            Error::ModelSchemaMigrateUpFailed(msg) => {
                let mut m = String::from_str(
                    "The requested model schema migration to a higher version failed: ",
                );
                m.append(msg.as_str());
                m
            },
            Error::ModelSchemaMigrateDownNotAvailable => String::from_str(
                "The requested model schema migration to a lower version is not available",
            ),
            Error::ModelSchemaMigrateUpNotAvailable => String::from_str(
                "The requested model schema migration to a lower version is not available",
            ),
            Error::ModelSchemaValuesNotAvailable => String::from_str(
                "The requested values are not available in the current version of the model schema",
            ),
            Error::UiMissingStateReceiver => String::from_str("Ui is missing the state receiver"),
            Error::UiWouldClobberStateReceiver => String::from_str(
                "Ui would clobber the state receiver",
            ),
        }
    }
}

} // verus!
