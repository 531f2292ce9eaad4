//! The decision core of a power menu: which session action a press selects,
//! how each action is dispatched, and when the menu terminates.
//!
//! Everything here is a function from plain values to plain values. The
//! surrounding program draws the menu, talks to the session bus and launches
//! child processes; it feeds what happened into [`app::App::update`] and
//! carries out the [`app::Effect`] that comes back.

pub mod action;
pub mod app;
pub mod config;
pub mod error;
pub mod executor;
pub mod keys;
pub mod logging;
pub mod runs;
pub mod strings;
pub mod theme;

pub use action::{Action, ActionMethod};
pub use app::{App, AppMsg, Effect, Phase};
pub use config::{resolve, Actions, Config};
pub use error::{AppError, AppResult};
pub use executor::{
    action_task, call_outcome, cmd, command_outcome, connect_outcome, remote_call, Dispatch,
    ManagerMethod, ProcessReport, RemoteCall, SessionMethod, Spawn,
};
pub use keys::{key_message, Key};
pub use logging::{log_level, Level};
pub use theme::{parse_theme_str, theme_names, Theme};
