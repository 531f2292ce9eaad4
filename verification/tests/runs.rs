use waypwr::action::ActionMethod;
use waypwr::app::{App, AppMsg, Effect, Phase};
use waypwr::config::{Actions, Config};
use waypwr::error::AppError;
use waypwr::theme::Theme;

fn config() -> Config {
    Config {
        actions: Actions::new(
            None,
            Some(ActionMethod::Cmd(Vec::new())),
            None,
            None,
            Some(ActionMethod::Cmd(vec!["systemctl".to_string(), "poweroff".to_string()])),
        ),
        theme: Theme::Nord,
    }
}

fn message(kind: usize) -> AppMsg<u32> {
    match kind {
        0 => AppMsg::Quit,
        1 => AppMsg::ZbusConnected(Ok(7)),
        2 => AppMsg::ZbusConnected(Err(AppError::Connect("refused".to_string()))),
        3 => AppMsg::Lock,
        4 => AppMsg::LogOut,
        5 => AppMsg::Hibernate,
        6 => AppMsg::Reboot,
        7 => AppMsg::Shutdown,
        8 => AppMsg::ActionResult(Ok(())),
        _ => AppMsg::ActionResult(Err(AppError::IpcCall("denied".to_string()))),
    }
}

const KINDS: usize = 10;
const DEPTH: u32 = 4;

fn rank(phase: Phase) -> u8 {
    match phase {
        Phase::Connecting => 0,
        Phase::Ready => 1,
        Phase::ExecutingAction => 2,
        Phase::Terminated => 3,
    }
}

/// Every sequence of `DEPTH` events, as the kinds of its events.
fn sequences() -> Vec<Vec<usize>> {
    let mut all = Vec::new();
    for code in 0..KINDS.pow(DEPTH) {
        let mut rest = code;
        let mut kinds = Vec::new();
        for _ in 0..DEPTH {
            kinds.push(rest % KINDS);
            rest /= KINDS;
        }
        all.push(kinds);
    }
    all
}

#[test]
fn phases_only_move_forward() {
    for kinds in sequences() {
        let (mut app, _) = App::<u32>::new(config());
        let mut before = rank(app.phase());
        for kind in kinds {
            app.update(message(kind));
            let after = rank(app.phase());
            assert!(before <= after);
            before = after;
        }
    }
}

#[test]
fn at_most_one_action_in_any_run() {
    for kinds in sequences() {
        let (mut app, _) = App::<u32>::new(config());
        let mut executed = 0;
        for kind in kinds {
            if let Effect::Execute { connection, .. } = app.update(message(kind)) {
                assert_eq!(connection, Some(7));
                executed += 1;
            }
        }
        assert!(executed <= 1);
    }
}

#[test]
fn connection_and_phase_agree_in_every_reachable_state() {
    for kinds in sequences() {
        let (mut app, _) = App::<u32>::new(config());
        for kind in kinds {
            app.update(message(kind));
            match app.phase() {
                Phase::Connecting => assert_eq!(app.connection(), None),
                Phase::Ready | Phase::ExecutingAction => assert_eq!(app.connection(), Some(&7)),
                Phase::Terminated => {}
            }
            assert_eq!(app.config(), &config());
        }
    }
}

#[test]
fn nothing_happens_after_termination() {
    for kinds in sequences() {
        let (mut app, _) = App::<u32>::new(config());
        for kind in kinds {
            let terminated = app.phase() == Phase::Terminated;
            let held = app.connection().copied();
            let effect = app.update(message(kind));
            if terminated {
                assert_eq!(effect, Effect::Wait);
                assert_eq!(app.phase(), Phase::Terminated);
                assert_eq!(app.connection().copied(), held);
            }
        }
    }
}

#[test]
fn a_failed_connection_ends_every_run() {
    for kinds in sequences() {
        let (mut app, _) = App::<u32>::new(config());
        let first = app.update(message(2));
        assert_eq!(
            first,
            Effect::Exit { log: Some("Failed to connect to session bus: refused".to_string()) }
        );
        for kind in kinds {
            assert_eq!(app.update(message(kind)), Effect::Wait);
            assert_eq!(app.phase(), Phase::Terminated);
            assert_ne!(app.phase(), Phase::Ready);
        }
    }
}

#[test]
fn exit_is_asked_for_exactly_when_the_menu_terminates() {
    for kinds in sequences() {
        let (mut app, _) = App::<u32>::new(config());
        for kind in kinds {
            let before = app.phase();
            let effect = app.update(message(kind));
            let terminates = before != Phase::Terminated && app.phase() == Phase::Terminated;
            assert_eq!(matches!(effect, Effect::Exit { .. }), terminates);
        }
    }
}
