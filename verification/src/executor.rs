//! Carrying out a resolved action: which remote method to call, or which
//! program to launch, and what the result of either means.

use vstd::prelude::*;
use vstd::string::StringExecFns;

use crate::action::{Action, ActionMethod, MethodView};
use crate::error::{AppError, ErrorView};
use crate::strings::texts;

verus! {

/// The methods of the remote object that stands for the user's own session.
/// They take no argument.
#[derive(Clone, Copy, Debug, PartialEq, Eq, Hash, Structural)]
pub enum SessionMethod {
    Lock,
    Terminate,
}

/// The methods of the remote object that stands for the whole machine. Each
/// takes one argument: whether the service may ask the user to confirm.
#[derive(Clone, Copy, Debug, PartialEq, Eq, Hash, Structural)]
pub enum ManagerMethod {
    Hibernate,
    Reboot,
    PowerOff,
}

/// One invocation on the session bus: the remote object, the method, and the
/// method's arguments.
#[allow(inconsistent_fields)]
#[derive(Clone, Copy, Debug, PartialEq, Eq, Hash, Structural)]
pub enum RemoteCall {
    Session { method: SessionMethod },
    Manager { method: ManagerMethod, interactive: bool },
}

/// The remote call that carries out `action`. Locking and logging out concern
/// the session; the other three concern the machine and are told not to ask
/// for confirmation.
pub open spec fn remote_call_spec(action: Action) -> RemoteCall {
    match action {
        Action::Lock => RemoteCall::Session { method: SessionMethod::Lock },
        Action::LogOut => RemoteCall::Session { method: SessionMethod::Terminate },
        Action::Hibernate => RemoteCall::Manager {
            method: ManagerMethod::Hibernate,
            interactive: false,
        },
        Action::Reboot => RemoteCall::Manager { method: ManagerMethod::Reboot, interactive: false },
        Action::Shutdown => RemoteCall::Manager {
            method: ManagerMethod::PowerOff,
            interactive: false,
        },
    }
}

/// Looks up the remote call that carries out `action`.
pub fn remote_call(action: Action) -> (call: RemoteCall)
    ensures
        call == remote_call_spec(action),
{
    match action {
        Action::Lock => RemoteCall::Session { method: SessionMethod::Lock },
        Action::LogOut => RemoteCall::Session { method: SessionMethod::Terminate },
        Action::Hibernate => RemoteCall::Manager {
            method: ManagerMethod::Hibernate,
            interactive: false,
        },
        Action::Reboot => RemoteCall::Manager { method: ManagerMethod::Reboot, interactive: false },
        Action::Shutdown => RemoteCall::Manager {
            method: ManagerMethod::PowerOff,
            interactive: false,
        },
    }
}

/// No remote call of the menu lets the service ask for confirmation.
pub proof fn lemma_remote_calls_never_prompt(action: Action)
    ensures
        remote_call_spec(action) matches RemoteCall::Manager { interactive, .. } ==> !interactive,
        remote_call_spec(action) is Session <==> action is Lock || action is LogOut,
{
}

/// A program to launch and the arguments to hand it, verbatim.
#[derive(Debug, PartialEq, Eq)]
pub struct Spawn {
    pub program: String,
    pub args: Vec<String>,
}

/// A [`Spawn`] as contracts see it.
pub struct SpawnView {
    pub program: Seq<char>,
    pub args: Seq<Seq<char>>,
}

impl View for Spawn {
    type V = SpawnView;

    open spec fn view(&self) -> SpawnView {
        SpawnView { program: self.program@, args: texts(self.args@) }
    }
}

/// What launching `argv` for the action called `action` comes to: the first
/// string is the program and the rest are its arguments; an empty vector is
/// an error that names the action.
pub open spec fn cmd_spec(action: Seq<char>, argv: Seq<Seq<char>>) -> Result<SpawnView, ErrorView> {
    if argv.len() == 0 {
        Err(ErrorView::EmptyCommandArgs(action))
    } else {
        Ok(SpawnView { program: argv[0], args: argv.skip(1) })
    }
}

/// Splits a configured argument vector into the program and its arguments.
pub fn cmd(action: &str, args: Vec<String>) -> (launch: Result<Spawn, AppError>)
    ensures
        match launch {
            Ok(spawn) => cmd_spec(action@, texts(args@)) == Ok::<SpawnView, ErrorView>(spawn@),
            Err(error) => cmd_spec(action@, texts(args@)) == Err::<SpawnView, ErrorView>(error@),
        },
{
    let mut rest = args;
    if rest.len() == 0 {
        return Err(AppError::EmptyCommandArgs(String::from_str(action)));
    }
    let program = rest.remove(0);
    assert(texts(rest@) =~= texts(args@).skip(1));
    Ok(Spawn { program, args: rest })
}

/// What the executor is to do for one action, once its guards have passed.
#[derive(Debug, PartialEq, Eq)]
pub enum Dispatch<C> {
    /// Invoke `call` over `connection`.
    Call { connection: C, call: RemoteCall },
    /// Launch a program and wait for it to exit.
    Spawn(Spawn),
}

/// A [`Dispatch`] as contracts see it.
pub enum DispatchView<C> {
    Call { connection: C, call: RemoteCall },
    Spawn(SpawnView),
}

impl<C> View for Dispatch<C> {
    type V = DispatchView<C>;

    open spec fn view(&self) -> DispatchView<C> {
        match self {
            Dispatch::Call { connection, call } => DispatchView::Call {
                connection: *connection,
                call: *call,
            },
            Dispatch::Spawn(spawn) => DispatchView::Spawn(spawn@),
        }
    }
}

/// What carrying out `action` by `method` comes to, given the connection
/// that is at hand. The bus path needs a connection; the command path needs
/// a program to run.
pub open spec fn action_task_spec<C>(
    action: Action,
    method: MethodView,
    connection: Option<C>,
) -> Result<DispatchView<C>, ErrorView> {
    match method {
        MethodView::Ipc => match connection {
            Some(connection) => Ok(
                DispatchView::Call { connection, call: remote_call_spec(action) },
            ),
            None => Err(ErrorView::NoConnection),
        },
        MethodView::Cmd(argv) => match cmd_spec(action.label_spec(), argv) {
            Ok(spawn) => Ok(DispatchView::Spawn(spawn)),
            Err(error) => Err(error),
        },
    }
}

/// Decides how `action` is carried out by `method`: by a remote call over
/// `connection`, by launching a program, or not at all.
pub fn action_task<C>(action: Action, method: ActionMethod, connection: Option<C>) -> (task: Result<
    Dispatch<C>,
    AppError,
>)
    ensures
        match task {
            Ok(dispatch) => action_task_spec(action, method@, connection) == Ok::<
                DispatchView<C>,
                ErrorView,
            >(dispatch@),
            Err(error) => action_task_spec(action, method@, connection) == Err::<
                DispatchView<C>,
                ErrorView,
            >(error@),
        },
{
    match method {
        ActionMethod::Ipc => match connection {
            Some(connection) => Ok(Dispatch::Call { connection, call: remote_call(action) }),
            None => Err(AppError::NoConnection),
        },
        ActionMethod::Cmd(args) => match cmd(action.label(), args) {
            Ok(spawn) => Ok(Dispatch::Spawn(spawn)),
            Err(error) => Err(error),
        },
    }
}

/// The bus path without a connection is refused, whatever the action, and
/// no remote call comes of it.
pub proof fn lemma_ipc_needs_connection<C>(action: Action)
    ensures
        action_task_spec::<C>(action, MethodView::Ipc, None) == Err::<DispatchView<C>, ErrorView>(
            ErrorView::NoConnection,
        ),
{
}

/// The command path with an empty argument vector is refused, whatever the
/// action and with or without a connection, and no program is launched.
pub proof fn lemma_empty_command_is_refused<C>(action: Action, connection: Option<C>)
    ensures
        action_task_spec(action, MethodView::Cmd(Seq::empty()), connection) == Err::<
            DispatchView<C>,
            ErrorView,
        >(ErrorView::EmptyCommandArgs(action.label_spec())),
{
}

/// The command path with a program to run launches exactly that program
/// with the remaining strings, and does not look at the connection.
pub proof fn lemma_command_is_launched_verbatim<C>(
    action: Action,
    argv: Seq<Seq<char>>,
    connection: Option<C>,
)
    requires
        argv.len() > 0,
    ensures
        action_task_spec(action, MethodView::Cmd(argv), connection) == Ok::<
            DispatchView<C>,
            ErrorView,
        >(DispatchView::Spawn(SpawnView { program: argv[0], args: argv.skip(1) })),
{
}

/// How a launched program ended, as the operating system reported it.
#[derive(Debug, PartialEq, Eq)]
pub enum ProcessReport {
    /// The program could not be launched.
    SpawnFailed(String),
    /// The program ran, but waiting for it failed.
    WaitFailed(String),
    /// The program exited, with this code if it has one.
    Exited(Option<i32>),
}

/// The outcome of the command path. A program that exits has done its work,
/// whatever its exit code says; only a failure to launch it or to wait for
/// it is an error.
pub fn command_outcome(report: ProcessReport) -> (outcome: Result<(), AppError>)
    ensures
        match report {
            ProcessReport::SpawnFailed(cause) => outcome matches Err(error) && error@
                == ErrorView::ProcessSpawn(cause@),
            ProcessReport::WaitFailed(cause) => outcome matches Err(error) && error@
                == ErrorView::ProcessWait(cause@),
            ProcessReport::Exited(_) => outcome is Ok,
        },
{
    match report {
        ProcessReport::SpawnFailed(cause) => Err(AppError::ProcessSpawn(cause)),
        ProcessReport::WaitFailed(cause) => Err(AppError::ProcessWait(cause)),
        ProcessReport::Exited(_) => Ok(()),
    }
}

/// The outcome of the bus path: the remote call's own failure, wrapped.
pub fn call_outcome(reply: Result<(), String>) -> (outcome: Result<(), AppError>)
    ensures
        match reply {
            Ok(_) => outcome is Ok,
            Err(cause) => outcome matches Err(error) && error@ == ErrorView::IpcCall(cause@),
        },
{
    match reply {
        Ok(_) => Ok(()),
        Err(cause) => Err(AppError::IpcCall(cause)),
    }
}

/// The outcome of the one attempt to connect: the connection, or the bus's
/// own failure, wrapped.
pub fn connect_outcome<C>(attempt: Result<C, String>) -> (outcome: Result<C, AppError>)
    ensures
        match attempt {
            Ok(connection) => outcome == Ok::<C, AppError>(connection),
            Err(cause) => outcome matches Err(error) && error@ == ErrorView::Connect(cause@),
        },
{
    match attempt {
        Ok(connection) => Ok(connection),
        Err(cause) => Err(AppError::Connect(cause)),
    }
}

} // verus!
