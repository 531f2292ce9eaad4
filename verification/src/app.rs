//! The lifecycle of the menu: connect once, wait for one choice, carry it
//! out, terminate.
//!
//! [`App`] holds the configuration, the connection and the phase. Each event
//! goes through [`App::update`], which changes the state and answers with
//! the one thing that the surrounding program is to do next.

use vstd::prelude::*;
use vstd::string::StringExecFns;

use crate::action::{Action, ActionMethod, MethodView};
use crate::config::{resolve, resolve_spec, Config, ConfigView};
use crate::error::{AppError, ErrorView};
use crate::theme::Theme;

verus! {

/// Where the menu is in its life.
#[derive(Clone, Copy, Debug, PartialEq, Eq, Hash, Structural)]
pub enum Phase {
    /// The one attempt to connect to the session bus is under way.
    Connecting,
    /// The connection stands and no action has been chosen yet.
    Ready,
    /// The chosen action is being carried out.
    ExecutingAction,
    /// The process is to exit. Nothing happens after this.
    Terminated,
}

impl Phase {
    /// How far the phase is along the way from start to end.
    pub open spec fn rank(self) -> nat {
        match self {
            Phase::Connecting => 0,
            Phase::Ready => 1,
            Phase::ExecutingAction => 2,
            Phase::Terminated => 3,
        }
    }
}

/// An event that the menu reacts to.
#[derive(Debug, PartialEq, Eq)]
pub enum AppMsg<C> {
    /// The user asked to leave without choosing.
    Quit,
    /// The attempt to connect has ended.
    ZbusConnected(Result<C, AppError>),
    Lock,
    LogOut,
    Hibernate,
    Reboot,
    Shutdown,
    /// The chosen action has ended.
    ActionResult(Result<(), AppError>),
}

/// An [`AppMsg`] as contracts see it.
pub enum MsgView<C> {
    Quit,
    Connected(C),
    ConnectFailed(ErrorView),
    Selected(Action),
    Finished(Result<(), ErrorView>),
}

impl<C> View for AppMsg<C> {
    type V = MsgView<C>;

    open spec fn view(&self) -> MsgView<C> {
        match self {
            AppMsg::Quit => MsgView::Quit,
            AppMsg::ZbusConnected(Ok(connection)) => MsgView::Connected(*connection),
            AppMsg::ZbusConnected(Err(error)) => MsgView::ConnectFailed(error@),
            AppMsg::Lock => MsgView::Selected(Action::Lock),
            AppMsg::LogOut => MsgView::Selected(Action::LogOut),
            AppMsg::Hibernate => MsgView::Selected(Action::Hibernate),
            AppMsg::Reboot => MsgView::Selected(Action::Reboot),
            AppMsg::Shutdown => MsgView::Selected(Action::Shutdown),
            AppMsg::ActionResult(Ok(_)) => MsgView::Finished(Ok(())),
            AppMsg::ActionResult(Err(error)) => MsgView::Finished(Err(error@)),
        }
    }
}

impl<C> AppMsg<C> {
    /// The message that stands for a press on the button of `action`.
    pub fn select(action: Action) -> (message: AppMsg<C>)
        ensures
            message@ == MsgView::<C>::Selected(action),
    {
        match action {
            Action::Lock => AppMsg::Lock,
            Action::LogOut => AppMsg::LogOut,
            Action::Hibernate => AppMsg::Hibernate,
            Action::Reboot => AppMsg::Reboot,
            Action::Shutdown => AppMsg::Shutdown,
        }
    }
}

/// What the surrounding program is to do after an event.
#[derive(Debug, PartialEq, Eq)]
pub enum Effect<C> {
    /// Nothing: keep waiting.
    Wait,
    /// Start the one attempt to connect to the session bus, and report its
    /// end as [`AppMsg::ZbusConnected`].
    Connect,
    /// Carry out `action` by `method`, and report its end as
    /// [`AppMsg::ActionResult`].
    Execute { action: Action, method: ActionMethod, connection: Option<C> },
    /// Write `log` to the error log, if there is one, and exit.
    Exit { log: Option<String> },
}

/// An [`Effect`] as contracts see it.
pub enum EffectView<C> {
    Wait,
    Connect,
    Execute { action: Action, method: MethodView, connection: Option<C> },
    Exit { log: Option<Seq<char>> },
}

impl<C> View for Effect<C> {
    type V = EffectView<C>;

    open spec fn view(&self) -> EffectView<C> {
        match self {
            Effect::Wait => EffectView::Wait,
            Effect::Connect => EffectView::Connect,
            Effect::Execute { action, method, connection } => EffectView::Execute {
                action: *action,
                method: method@,
                connection: *connection,
            },
            Effect::Exit { log: Some(line) } => EffectView::Exit { log: Some(line@) },
            Effect::Exit { log: None } => EffectView::Exit { log: None },
        }
    }
}

/// The state of the menu: what it is configured to do, the connection once
/// there is one, and the phase.
pub struct App<C> {
    config: Config,
    connection: Option<C>,
    phase: Phase,
}

/// An [`App`] as contracts see it.
pub struct AppView<C> {
    pub config: ConfigView,
    pub connection: Option<C>,
    pub phase: Phase,
}

impl<C> View for App<C> {
    type V = AppView<C>;

    closed spec fn view(&self) -> AppView<C> {
        AppView { config: self.config@, connection: self.connection, phase: self.phase }
    }
}

/// The state in which the menu starts: not connected, and connecting.
pub open spec fn initial<C>(config: ConfigView) -> AppView<C> {
    AppView { config, connection: None, phase: Phase::Connecting }
}

/// The line that is logged when an action has failed.
pub open spec fn action_failure_line(error: ErrorView) -> Seq<char> {
    "Failed to perform logind action: "@ + error.message()
}

/// The line that `outcome` leaves in the log: none for a success, and the
/// failure's line for a failure.
pub open spec fn outcome_log(outcome: Result<(), ErrorView>) -> Option<Seq<char>> {
    match outcome {
        Ok(_) => None,
        Err(error) => Some(action_failure_line(error)),
    }
}

/// The state after `message` has arrived in state `pre`.
///
/// Three events end the menu from every phase: a request to quit, the end
/// of an action, and a failed connection attempt. A connection that comes
/// about is stored, and while connecting it makes the menu ready. A choice
/// is taken while ready and at no other time. After termination no event
/// changes anything.
pub open spec fn next<C>(pre: AppView<C>, message: MsgView<C>) -> AppView<C> {
    match (pre.phase, message) {
        (Phase::Terminated, _) => pre,
        (_, MsgView::Quit) => AppView { phase: Phase::Terminated, ..pre },
        (_, MsgView::Finished(_)) => AppView { phase: Phase::Terminated, ..pre },
        (_, MsgView::ConnectFailed(_)) => AppView { phase: Phase::Terminated, ..pre },
        (Phase::Connecting, MsgView::Connected(connection)) => AppView {
            connection: Some(connection),
            phase: Phase::Ready,
            ..pre
        },
        (_, MsgView::Connected(connection)) => AppView { connection: Some(connection), ..pre },
        (Phase::Ready, MsgView::Selected(_)) => AppView { phase: Phase::ExecutingAction, ..pre },
        (_, MsgView::Selected(_)) => pre,
    }
}

/// `given` is what a clone of `held` may be: nothing where nothing is held,
/// and a clone of the connection where one is.
pub open spec fn shares<C: Clone>(held: Option<C>, given: Option<C>) -> bool {
    match held {
        Some(connection) => given matches Some(copy) && cloned(connection, copy),
        None => given is None,
    }
}

/// `effect` is what the menu asks for when `message` arrives in state `pre`.
///
/// Whatever ends the menu asks for the exit, with the line to log where
/// something failed. A choice taken asks for the action to be carried out
/// by its configured method, over a clone of the held connection. Every
/// other event asks for nothing.
pub open spec fn issued<C: Clone>(
    pre: AppView<C>,
    message: MsgView<C>,
    effect: EffectView<C>,
) -> bool {
    match (pre.phase, message) {
        (Phase::Terminated, _) => effect is Wait,
        (_, MsgView::Quit) => effect == (EffectView::<C>::Exit { log: None }),
        (_, MsgView::Finished(outcome)) => effect == (EffectView::<C>::Exit {
            log: outcome_log(outcome),
        }),
        (_, MsgView::ConnectFailed(error)) => effect == (EffectView::<C>::Exit {
            log: Some(error.message()),
        }),
        (_, MsgView::Connected(_)) => effect is Wait,
        (Phase::Ready, MsgView::Selected(chosen)) => {
            &&& effect matches EffectView::Execute { action, method, connection }
            &&& action == chosen
            &&& method == resolve_spec(chosen, pre.config)
            &&& shares(pre.connection, connection)
        },
        (_, MsgView::Selected(_)) => effect is Wait,
    }
}

impl<C: Clone> App<C> {
    /// Starts the menu: the state is [`initial`], and the first thing to do
    /// is to connect.
    pub fn new(config: Config) -> (started: (App<C>, Effect<C>))
        ensures
            started.0@ == initial::<C>(config@),
            started.1@ == EffectView::<C>::Connect,
    {
        (App { config, connection: None, phase: Phase::Connecting }, Effect::Connect)
    }

    /// Takes one event in: moves to the state that [`next`] gives and
    /// answers with the effect that [`issued`] describes.
    pub fn update(&mut self, message: AppMsg<C>) -> (effect: Effect<C>)
        ensures
            final(self)@ == next(old(self)@, message@),
            issued(old(self)@, message@, effect@),
    {
        match self.phase {
            Phase::Terminated => {
                return Effect::Wait;
            },
            _ => {},
        }
        match message {
            AppMsg::Quit => {
                self.phase = Phase::Terminated;
                Effect::Exit { log: None }
            },
            AppMsg::ZbusConnected(Ok(connection)) => {
                self.connection = Some(connection);
                match self.phase {
                    Phase::Connecting => {
                        self.phase = Phase::Ready;
                    },
                    _ => {},
                }
                Effect::Wait
            },
            AppMsg::ZbusConnected(Err(error)) => {
                self.phase = Phase::Terminated;
                Effect::Exit { log: Some(error.message()) }
            },
            AppMsg::Lock => self.choose_action(Action::Lock),
            AppMsg::LogOut => self.choose_action(Action::LogOut),
            AppMsg::Hibernate => self.choose_action(Action::Hibernate),
            AppMsg::Reboot => self.choose_action(Action::Reboot),
            AppMsg::Shutdown => self.choose_action(Action::Shutdown),
            AppMsg::ActionResult(Ok(_)) => {
                self.phase = Phase::Terminated;
                Effect::Exit { log: None }
            },
            AppMsg::ActionResult(Err(error)) => {
                self.phase = Phase::Terminated;
                Effect::Exit {
                    log: Some(
                        String::from_str("Failed to perform logind action: ").concat(
                            error.message().as_str(),
                        ),
                    ),
                }
            },
        }
    }

    /// Takes a press on the button of `chosen` in.
    fn choose_action(&mut self, chosen: Action) -> (effect: Effect<C>)
        requires
            old(self)@.phase != Phase::Terminated,
        ensures
            final(self)@ == next(old(self)@, MsgView::Selected(chosen)),
            issued(old(self)@, MsgView::Selected(chosen), effect@),
    {
        match self.phase {
            Phase::Ready => {
                self.phase = Phase::ExecutingAction;
                Effect::Execute {
                    action: chosen,
                    method: resolve(chosen, &self.config).clone(),
                    connection: self.connection.clone(),
                }
            },
            _ => Effect::Wait,
        }
    }

    /// The phase that the menu is in.
    pub fn phase(&self) -> (phase: Phase)
        ensures
            phase == self@.phase,
    {
        self.phase
    }

    /// The configuration that the menu was started with.
    pub fn config(&self) -> (config: &Config)
        ensures
            config@ == self@.config,
    {
        &self.config
    }

    /// The connection to the session bus, once it stands.
    pub fn connection(&self) -> (connection: Option<&C>)
        ensures
            match connection {
                Some(held) => self@.connection == Some(*held),
                None => self@.connection is None,
            },
    {
        self.connection.as_ref()
    }

    /// The configured colour theme.
    pub fn theme(&self) -> (theme: Theme)
        ensures
            theme == self@.config.theme,
    {
        self.config.theme
    }
}

} // verus!
