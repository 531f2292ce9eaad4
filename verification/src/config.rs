//! The loaded configuration: one dispatch method for each action, and the
//! colour theme.

use vstd::prelude::*;

use crate::action::{Action, ActionMethod, MethodView};
use crate::theme::Theme;

verus! {

/// The dispatch method of each action.
#[derive(Debug, PartialEq, Eq)]
pub struct Actions {
    pub lock: ActionMethod,
    pub log_out: ActionMethod,
    pub hibernate: ActionMethod,
    pub reboot: ActionMethod,
    pub shutdown: ActionMethod,
}

/// [`Actions`] as contracts see them.
pub struct ActionsView {
    pub lock: MethodView,
    pub log_out: MethodView,
    pub hibernate: MethodView,
    pub reboot: MethodView,
    pub shutdown: MethodView,
}

impl ActionsView {
    /// The method that is configured for `action`.
    pub open spec fn method(self, action: Action) -> MethodView {
        match action {
            Action::Lock => self.lock,
            Action::LogOut => self.log_out,
            Action::Hibernate => self.hibernate,
            Action::Reboot => self.reboot,
            Action::Shutdown => self.shutdown,
        }
    }

    /// The table in which every action goes over the session bus.
    pub open spec fn all_ipc() -> ActionsView {
        ActionsView {
            lock: MethodView::Ipc,
            log_out: MethodView::Ipc,
            hibernate: MethodView::Ipc,
            reboot: MethodView::Ipc,
            shutdown: MethodView::Ipc,
        }
    }
}

/// The method that a configuration entry stands for: the entry itself, or
/// the session bus where the entry is missing.
pub open spec fn entry_or_default(entry: Option<ActionMethod>) -> MethodView {
    match entry {
        Some(method) => method@,
        None => MethodView::Ipc,
    }
}

impl View for Actions {
    type V = ActionsView;

    open spec fn view(&self) -> ActionsView {
        ActionsView {
            lock: self.lock@,
            log_out: self.log_out@,
            hibernate: self.hibernate@,
            reboot: self.reboot@,
            shutdown: self.shutdown@,
        }
    }
}

impl Actions {
    /// Builds the table from the entries that a configuration holds. An
    /// action without an entry goes over the session bus.
    pub fn new(
        lock: Option<ActionMethod>,
        log_out: Option<ActionMethod>,
        hibernate: Option<ActionMethod>,
        reboot: Option<ActionMethod>,
        shutdown: Option<ActionMethod>,
    ) -> (actions: Actions)
        ensures
            actions@ == (ActionsView {
                lock: entry_or_default(lock),
                log_out: entry_or_default(log_out),
                hibernate: entry_or_default(hibernate),
                reboot: entry_or_default(reboot),
                shutdown: entry_or_default(shutdown),
            }),
    {
        Actions {
            lock: ActionMethod::or_default(lock),
            log_out: ActionMethod::or_default(log_out),
            hibernate: ActionMethod::or_default(hibernate),
            reboot: ActionMethod::or_default(reboot),
            shutdown: ActionMethod::or_default(shutdown),
        }
    }
}

impl Default for Actions {
    fn default() -> (actions: Actions)
        ensures
            actions@ == ActionsView::all_ipc(),
    {
        Actions {
            lock: ActionMethod::Ipc,
            log_out: ActionMethod::Ipc,
            hibernate: ActionMethod::Ipc,
            reboot: ActionMethod::Ipc,
            shutdown: ActionMethod::Ipc,
        }
    }
}

impl Clone for Actions {
    fn clone(&self) -> (copy: Actions)
        ensures
            copy@ == self@,
    {
        Actions {
            lock: self.lock.clone(),
            log_out: self.log_out.clone(),
            hibernate: self.hibernate.clone(),
            reboot: self.reboot.clone(),
            shutdown: self.shutdown.clone(),
        }
    }
}

/// What the menu is configured to do and to look like.
#[derive(Debug, PartialEq, Eq)]
pub struct Config {
    pub actions: Actions,
    pub theme: Theme,
}

/// A [`Config`] as contracts see it.
pub struct ConfigView {
    pub actions: ActionsView,
    pub theme: Theme,
}

impl View for Config {
    type V = ConfigView;

    open spec fn view(&self) -> ConfigView {
        ConfigView { actions: self.actions@, theme: self.theme }
    }
}

impl Default for Config {
    fn default() -> (config: Config)
        ensures
            config@ == (ConfigView {
                actions: ActionsView::all_ipc(),
                theme: Theme::CatppuccinMocha,
            }),
    {
        Config { actions: Actions::default(), theme: Theme::CatppuccinMocha }
    }
}

impl Clone for Config {
    fn clone(&self) -> (copy: Config)
        ensures
            copy@ == self@,
    {
        Config { actions: self.actions.clone(), theme: self.theme }
    }
}

impl Config {
    /// Replaces the configured theme by the one given on the command line,
    /// if one was given.
    pub fn override_theme(&mut self, theme: Option<Theme>)
        ensures
            final(self).actions == old(self).actions,
            final(self).theme == match theme {
                Some(chosen) => chosen,
                None => old(self).theme,
            },
    {
        if let Some(chosen) = theme {
            self.theme = chosen;
        }
    }
}

/// The method by which `config` carries out `action`.
pub open spec fn resolve_spec(action: Action, config: ConfigView) -> MethodView {
    config.actions.method(action)
}

/// Looks up the method that is configured for `action`. Every action has
/// one, so the lookup cannot fail.
pub fn resolve(action: Action, config: &Config) -> (method: &ActionMethod)
    ensures
        method@ == resolve_spec(action, config@),
        *method == match action {
            Action::Lock => config.actions.lock,
            Action::LogOut => config.actions.log_out,
            Action::Hibernate => config.actions.hibernate,
            Action::Reboot => config.actions.reboot,
            Action::Shutdown => config.actions.shutdown,
        },
{
    match action {
        Action::Lock => &config.actions.lock,
        Action::LogOut => &config.actions.log_out,
        Action::Hibernate => &config.actions.hibernate,
        Action::Reboot => &config.actions.reboot,
        Action::Shutdown => &config.actions.shutdown,
    }
}

/// An action that the configuration leaves out resolves to the session bus,
/// and one that it holds resolves to its entry.
pub proof fn lemma_resolve_follows_entries(
    action: Action,
    lock: Option<ActionMethod>,
    log_out: Option<ActionMethod>,
    hibernate: Option<ActionMethod>,
    reboot: Option<ActionMethod>,
    shutdown: Option<ActionMethod>,
    config: ConfigView,
)
    requires
        config.actions == (ActionsView {
            lock: entry_or_default(lock),
            log_out: entry_or_default(log_out),
            hibernate: entry_or_default(hibernate),
            reboot: entry_or_default(reboot),
            shutdown: entry_or_default(shutdown),
        }),
    ensures
        resolve_spec(action, config) == entry_or_default(
            match action {
                Action::Lock => lock,
                Action::LogOut => log_out,
                Action::Hibernate => hibernate,
                Action::Reboot => reboot,
                Action::Shutdown => shutdown,
            },
        ),
{
}

/// A configuration that was never written resolves every action to the
/// session bus.
pub proof fn lemma_default_resolves_to_ipc(action: Action, config: ConfigView)
    requires
        config.actions == ActionsView::all_ipc(),
    ensures
        resolve_spec(action, config) == MethodView::Ipc,
{
}

/// Resolving reads nothing but its two arguments: the same action and the
/// same configuration give the same method, however often it is asked.
pub proof fn lemma_resolve_is_deterministic(
    action: Action,
    first: ConfigView,
    second: ConfigView,
)
    requires
        first.actions == second.actions,
    ensures
        resolve_spec(action, first) == resolve_spec(action, second),
{
}

} // verus!
