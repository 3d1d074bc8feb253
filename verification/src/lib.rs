// A tracker of todos in projects. The records live in a store (`db`) whose
// state contracts see as a `DatabaseView` (`state`); the rules of the order of
// todos are in `ordering`, what keeps the store consistent in `consistency`,
// and what follows for creating, completing and moving todos in `theorems`.
// `service` checks texts and looks records up before the store is changed;
// `tui` and `web` turn key presses and requests into calls of the service.

pub mod config;
pub mod consistency;
pub mod db;
pub mod error;
pub mod models;
pub mod ordering;
pub mod service;
pub mod snapshot;
pub mod state;
pub mod text;
pub mod theorems;
pub mod time;
pub mod tui;
pub mod web;
