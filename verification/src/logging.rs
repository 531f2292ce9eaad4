//! How much the menu logs.

use vstd::prelude::*;

verus! {

/// The most verbose kind of line that is still written to the log.
#[derive(Clone, Copy, Debug, PartialEq, Eq, Hash, Structural)]
pub enum Level {
    Warn,
    Info,
    Debug,
    Trace,
}

/// The level that the three switches ask for. `quiet` wins over `debug`,
/// and `debug` over `trace`; with none of them set the level is `Info`.
pub open spec fn log_level_spec(quiet: bool, debug: bool, trace: bool) -> Level {
    if quiet {
        Level::Warn
    } else if debug {
        Level::Debug
    } else if trace {
        Level::Trace
    } else {
        Level::Info
    }
}

/// Picks the log level from the three switches of the command line.
pub fn log_level(quiet: bool, debug: bool, trace: bool) -> (level: Level)
    ensures
        level == log_level_spec(quiet, debug, trace),
{
    if quiet {
        Level::Warn
    } else if debug {
        Level::Debug
    } else if trace {
        Level::Trace
    } else {
        Level::Info
    }
}

} // verus!
