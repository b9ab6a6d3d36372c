//! Calendar and task-list logic: month grids, calendar navigation state,
//! settings normalisation and the task and todo list models.

pub mod app_logic;
pub mod calendar;
pub mod date_key;
pub mod model;
pub mod models;
pub mod navigation;
pub mod platform;
pub mod settings;
pub mod solar;
pub mod state;
pub mod view_model;
pub mod viewmodel;
