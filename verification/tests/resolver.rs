use waypwr::action::{Action, ActionMethod};
use waypwr::config::{resolve, Actions, Config};
use waypwr::theme::Theme;

fn argv(words: &[&str]) -> Vec<String> {
    words.iter().map(|word| word.to_string()).collect()
}

#[test]
fn default_config_resolves_every_action_to_ipc() {
    let config = Config::default();
    for action in Action::all() {
        assert_eq!(resolve(action, &config), &ActionMethod::Ipc);
    }
}

#[test]
fn default_config_uses_catppuccin_mocha() {
    assert_eq!(Config::default().theme, Theme::CatppuccinMocha);
}

#[test]
fn resolve_returns_the_configured_method_of_each_action() {
    let config = Config {
        actions: Actions {
            lock: ActionMethod::Cmd(argv(&["swaylock"])),
            log_out: ActionMethod::Cmd(argv(&["loginctl", "terminate-session", "self"])),
            hibernate: ActionMethod::Ipc,
            reboot: ActionMethod::Cmd(argv(&["systemctl", "reboot"])),
            shutdown: ActionMethod::Cmd(argv(&["systemctl", "poweroff"])),
        },
        theme: Theme::Nord,
    };
    assert_eq!(resolve(Action::Lock, &config), &ActionMethod::Cmd(argv(&["swaylock"])));
    assert_eq!(
        resolve(Action::LogOut, &config),
        &ActionMethod::Cmd(argv(&["loginctl", "terminate-session", "self"]))
    );
    assert_eq!(resolve(Action::Hibernate, &config), &ActionMethod::Ipc);
    assert_eq!(resolve(Action::Reboot, &config), &ActionMethod::Cmd(argv(&["systemctl", "reboot"])));
    assert_eq!(
        resolve(Action::Shutdown, &config),
        &ActionMethod::Cmd(argv(&["systemctl", "poweroff"]))
    );
}

#[test]
fn omitted_entries_default_to_ipc() {
    let actions = Actions::new(
        None,
        Some(ActionMethod::Cmd(argv(&["logout"]))),
        None,
        Some(ActionMethod::Ipc),
        Some(ActionMethod::Cmd(Vec::new())),
    );
    let config = Config { actions, theme: Theme::Dark };
    assert_eq!(resolve(Action::Lock, &config), &ActionMethod::Ipc);
    assert_eq!(resolve(Action::LogOut, &config), &ActionMethod::Cmd(argv(&["logout"])));
    assert_eq!(resolve(Action::Hibernate, &config), &ActionMethod::Ipc);
    assert_eq!(resolve(Action::Reboot, &config), &ActionMethod::Ipc);
    assert_eq!(resolve(Action::Shutdown, &config), &ActionMethod::Cmd(Vec::new()));
}

#[test]
fn all_entries_omitted_equals_default_actions() {
    assert_eq!(Actions::new(None, None, None, None, None), Actions::default());
}

#[test]
fn or_default_keeps_an_entry_and_fills_a_gap() {
    assert_eq!(ActionMethod::or_default(None), ActionMethod::Ipc);
    assert_eq!(
        ActionMethod::or_default(Some(ActionMethod::Cmd(argv(&["a", "b"])))),
        ActionMethod::Cmd(argv(&["a", "b"]))
    );
}

#[test]
fn resolve_is_idempotent() {
    let config = Config {
        actions: Actions::new(None, None, None, None, Some(ActionMethod::Cmd(argv(&["halt"])))),
        theme: Theme::Light,
    };
    for action in Action::all() {
        let first = resolve(action, &config).clone();
        let second = resolve(action, &config).clone();
        let third = resolve(action, &config).clone();
        assert_eq!(first, second);
        assert_eq!(second, third);
    }
    assert_eq!(resolve(Action::Shutdown, &config), &ActionMethod::Cmd(argv(&["halt"])));
}

#[test]
fn resolve_does_not_reject_an_empty_command() {
    let config = Config {
        actions: Actions::new(Some(ActionMethod::Cmd(Vec::new())), None, None, None, None),
        theme: Theme::Light,
    };
    assert_eq!(resolve(Action::Lock, &config), &ActionMethod::Cmd(Vec::new()));
}

#[test]
fn cloned_method_equals_its_source() {
    let method = ActionMethod::Cmd(argv(&["systemctl", "poweroff"]));
    assert_eq!(method.clone(), method);
    assert_eq!(ActionMethod::Ipc.clone(), ActionMethod::Ipc);
}

#[test]
fn cloned_config_equals_its_source() {
    let config = Config {
        actions: Actions::new(Some(ActionMethod::Cmd(argv(&["swaylock", "-f"]))), None, None, None, None),
        theme: Theme::Ferra,
    };
    assert_eq!(config.clone(), config);
}

#[test]
fn override_theme_replaces_only_the_theme() {
    let mut config = Config {
        actions: Actions::new(Some(ActionMethod::Cmd(argv(&["swaylock"]))), None, None, None, None),
        theme: Theme::Nord,
    };
    config.override_theme(None);
    assert_eq!(config.theme, Theme::Nord);
    config.override_theme(Some(Theme::Dracula));
    assert_eq!(config.theme, Theme::Dracula);
    assert_eq!(config.actions.lock, ActionMethod::Cmd(argv(&["swaylock"])));
    assert_eq!(config.actions.shutdown, ActionMethod::Ipc);
}

#[test]
fn actions_are_offered_in_menu_order() {
    assert_eq!(
        Action::all(),
        vec![Action::Lock, Action::LogOut, Action::Hibernate, Action::Reboot, Action::Shutdown]
    );
}

#[test]
fn action_labels() {
    assert_eq!(Action::Lock.label(), "Lock");
    assert_eq!(Action::LogOut.label(), "Log Out");
    assert_eq!(Action::Hibernate.label(), "Hibernate");
    assert_eq!(Action::Reboot.label(), "Reboot");
    assert_eq!(Action::Shutdown.label(), "Shutdown");
}

#[test]
fn clone_strings_copies_every_element_in_order() {
    let source = argv(&["sh", "-c", "", "exit 3"]);
    assert_eq!(waypwr::strings::clone_strings(&source), source);
    assert_eq!(waypwr::strings::clone_strings(&Vec::new()), Vec::<String>::new());
}
