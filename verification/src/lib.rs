//! The decision logic of a small three-task program (a controller, a model
//! that keeps persons in an SQLite database, and a text user interface), kept
//! apart from the channels, threads and libraries that carry it out.

pub mod app_controller;
pub mod controller;
pub mod error;
pub mod lifecycle;
pub mod migrations;
pub mod model;
pub mod person;
pub mod text;
pub mod ui;
