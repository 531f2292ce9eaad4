//! The five session actions and the way each one is configured to run.

use vstd::prelude::*;

use crate::strings::{clone_strings, texts};

verus! {

/// What the user asks the menu to do.
#[derive(Clone, Copy, Debug, PartialEq, Eq, Hash, Structural)]
pub enum Action {
    Lock,
    LogOut,
    Hibernate,
    Reboot,
    Shutdown,
}

impl Action {
    /// The text shown on the action's button, which is also the name under
    /// which the action appears in error messages.
    pub open spec fn label_spec(self) -> Seq<char> {
        match self {
            Action::Lock => "Lock"@,
            Action::LogOut => "Log Out"@,
            Action::Hibernate => "Hibernate"@,
            Action::Reboot => "Reboot"@,
            Action::Shutdown => "Shutdown"@,
        }
    }

    /// The action's label.
    pub fn label(self) -> (text: &'static str)
        ensures
            text@ == self.label_spec(),
    {
        match self {
            Action::Lock => "Lock",
            Action::LogOut => "Log Out",
            Action::Hibernate => "Hibernate",
            Action::Reboot => "Reboot",
            Action::Shutdown => "Shutdown",
        }
    }

    /// The actions in the order in which the menu offers them.
    pub open spec fn all_spec() -> Seq<Action> {
        seq![Action::Lock, Action::LogOut, Action::Hibernate, Action::Reboot, Action::Shutdown]
    }

    /// The five actions, in menu order.
    pub fn all() -> (actions: Vec<Action>)
        ensures
            actions@ == Action::all_spec(),
    {
        vec![Action::Lock, Action::LogOut, Action::Hibernate, Action::Reboot, Action::Shutdown]
    }
}

/// How an action is carried out: over the session bus, or by running a
/// program. The argument vector of `Cmd` is the program followed by its
/// arguments; whether it is empty is checked when the action runs.
#[derive(Debug, PartialEq, Eq)]
pub enum ActionMethod {
    Ipc,
    Cmd(Vec<String>),
}

/// An [`ActionMethod`] as contracts see it.
pub enum MethodView {
    Ipc,
    Cmd(Seq<Seq<char>>),
}

impl View for ActionMethod {
    type V = MethodView;

    open spec fn view(&self) -> MethodView {
        match self {
            ActionMethod::Ipc => MethodView::Ipc,
            ActionMethod::Cmd(argv) => MethodView::Cmd(texts(argv@)),
        }
    }
}

impl Clone for ActionMethod {
    fn clone(&self) -> (copy: ActionMethod)
        ensures
            copy@ == self@,
    {
        match self {
            ActionMethod::Ipc => ActionMethod::Ipc,
            ActionMethod::Cmd(argv) => ActionMethod::Cmd(clone_strings(argv)),
        }
    }
}

impl ActionMethod {
    /// The method of an action that the configuration does not mention:
    /// the session bus.
    pub fn or_default(entry: Option<ActionMethod>) -> (method: ActionMethod)
        ensures
            method@ == match entry {
                Some(given) => given@,
                None => MethodView::Ipc,
            },
    {
        match entry {
            Some(given) => given,
            None => ActionMethod::Ipc,
        }
    }
}

} // verus!
