//! What can go wrong between a press on a button and the end of the process.
//! Every error is final: it is logged and the menu exits.

use vstd::prelude::*;
use vstd::string::StringExecFns;

verus! {

/// An error of the dispatch path. The variants that come from outside (the
/// bus, the operating system) carry the outside error's text.
#[derive(Debug, PartialEq, Eq)]
pub enum AppError {
    /// The connection to the session bus could not be established at startup.
    Connect(String),
    /// An action that goes over the session bus was attempted without a
    /// connection.
    NoConnection,
    /// The remote object could not be reached or the remote method failed.
    IpcCall(String),
    /// The command configured for the named action has no program to run.
    EmptyCommandArgs(String),
    /// The configured program could not be launched.
    ProcessSpawn(String),
    /// The launched program could not be awaited.
    ProcessWait(String),
}

/// An [`AppError`] as contracts see it.
pub enum ErrorView {
    Connect(Seq<char>),
    NoConnection,
    IpcCall(Seq<char>),
    EmptyCommandArgs(Seq<char>),
    ProcessSpawn(Seq<char>),
    ProcessWait(Seq<char>),
}

impl ErrorView {
    /// The line that describes the error to a reader of the log.
    pub open spec fn message(self) -> Seq<char> {
        match self {
            ErrorView::Connect(cause) => "Failed to connect to session bus: "@ + cause,
            ErrorView::NoConnection => "No dbus connection!"@,
            ErrorView::IpcCall(cause) => "Failed to connect to session bus: "@ + cause,
            ErrorView::EmptyCommandArgs(action) => "Empty cmd args list for action "@ + action,
            ErrorView::ProcessSpawn(cause) => "IO: "@ + cause,
            ErrorView::ProcessWait(cause) => "IO: "@ + cause,
        }
    }
}

impl View for AppError {
    type V = ErrorView;

    open spec fn view(&self) -> ErrorView {
        match self {
            AppError::Connect(cause) => ErrorView::Connect(cause@),
            AppError::NoConnection => ErrorView::NoConnection,
            AppError::IpcCall(cause) => ErrorView::IpcCall(cause@),
            AppError::EmptyCommandArgs(action) => ErrorView::EmptyCommandArgs(action@),
            AppError::ProcessSpawn(cause) => ErrorView::ProcessSpawn(cause@),
            AppError::ProcessWait(cause) => ErrorView::ProcessWait(cause@),
        }
    }
}

impl Clone for AppError {
    fn clone(&self) -> (copy: AppError)
        ensures
            copy@ == self@,
    {
        match self {
            AppError::Connect(cause) => AppError::Connect(cause.clone()),
            AppError::NoConnection => AppError::NoConnection,
            AppError::IpcCall(cause) => AppError::IpcCall(cause.clone()),
            AppError::EmptyCommandArgs(action) => AppError::EmptyCommandArgs(action.clone()),
            AppError::ProcessSpawn(cause) => AppError::ProcessSpawn(cause.clone()),
            AppError::ProcessWait(cause) => AppError::ProcessWait(cause.clone()),
        }
    }
}

impl AppError {
    /// The line that describes the error to a reader of the log.
    pub fn message(&self) -> (text: String)
        ensures
            text@ == self@.message(),
    {
        match self {
            AppError::Connect(cause) => String::from_str(
                "Failed to connect to session bus: ",
            ).concat(cause.as_str()),
            AppError::NoConnection => String::from_str("No dbus connection!"),
            AppError::IpcCall(cause) => String::from_str(
                "Failed to connect to session bus: ",
            ).concat(cause.as_str()),
            AppError::EmptyCommandArgs(action) => String::from_str(
                "Empty cmd args list for action ",
            ).concat(action.as_str()),
            AppError::ProcessSpawn(cause) => String::from_str("IO: ").concat(cause.as_str()),
            AppError::ProcessWait(cause) => String::from_str("IO: ").concat(cause.as_str()),
        }
    }
}

/// The result of carrying out one action.
pub type AppResult<T> = Result<T, AppError>;

} // verus!
