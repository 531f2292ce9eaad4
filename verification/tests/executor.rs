use waypwr::action::{Action, ActionMethod};
use waypwr::error::AppError;
use waypwr::executor::{
    action_task, call_outcome, cmd, command_outcome, connect_outcome, remote_call, Dispatch,
    ManagerMethod, ProcessReport, RemoteCall, SessionMethod, Spawn,
};

fn words(list: &[&str]) -> Vec<String> {
    list.iter().map(|word| word.to_string()).collect()
}

#[test]
fn empty_command_is_refused_and_names_the_action() {
    assert_eq!(cmd("Shutdown", Vec::new()), Err(AppError::EmptyCommandArgs("Shutdown".to_string())));
}

#[test]
fn empty_command_never_reaches_a_spawn() {
    for action in Action::all() {
        let with = action_task(action, ActionMethod::Cmd(Vec::new()), Some(1u32));
        let without = action_task::<u32>(action, ActionMethod::Cmd(Vec::new()), None);
        assert_eq!(with, Err(AppError::EmptyCommandArgs(action.label().to_string())));
        assert_eq!(without, Err(AppError::EmptyCommandArgs(action.label().to_string())));
    }
}

#[test]
fn empty_command_for_log_out_carries_its_label() {
    assert_eq!(
        action_task::<u32>(Action::LogOut, ActionMethod::Cmd(Vec::new()), None),
        Err(AppError::EmptyCommandArgs("Log Out".to_string()))
    );
}

#[test]
fn echo_hi_spawns_echo_with_one_argument() {
    assert_eq!(
        cmd("Lock", words(&["echo", "hi"])),
        Ok(Spawn { program: "echo".to_string(), args: words(&["hi"]) })
    );
}

#[test]
fn echo_hi_completes_whatever_the_exit_code() {
    assert_eq!(command_outcome(ProcessReport::Exited(Some(0))), Ok(()));
    assert_eq!(command_outcome(ProcessReport::Exited(Some(1))), Ok(()));
    assert_eq!(command_outcome(ProcessReport::Exited(Some(-1))), Ok(()));
    assert_eq!(command_outcome(ProcessReport::Exited(Some(i32::MAX))), Ok(()));
    assert_eq!(command_outcome(ProcessReport::Exited(Some(i32::MIN))), Ok(()));
    assert_eq!(command_outcome(ProcessReport::Exited(None)), Ok(()));
}

#[test]
fn program_alone_has_no_arguments() {
    assert_eq!(
        cmd("Lock", words(&["swaylock"])),
        Ok(Spawn { program: "swaylock".to_string(), args: Vec::new() })
    );
}

#[test]
fn arguments_are_passed_verbatim_and_in_order() {
    assert_eq!(
        cmd("Reboot", words(&["sh", "-c", "echo $HOME && reboot", "", "a b"])),
        Ok(Spawn {
            program: "sh".to_string(),
            args: words(&["-c", "echo $HOME && reboot", "", "a b"]),
        })
    );
}

#[test]
fn command_path_needs_no_connection() {
    assert_eq!(
        action_task::<u32>(Action::Shutdown, ActionMethod::Cmd(words(&["systemctl", "poweroff"])), None),
        Ok(Dispatch::Spawn(Spawn { program: "systemctl".to_string(), args: words(&["poweroff"]) }))
    );
}

#[test]
fn command_path_ignores_a_connection() {
    assert_eq!(
        action_task(Action::Shutdown, ActionMethod::Cmd(words(&["systemctl", "poweroff"])), Some(9u32)),
        Ok(Dispatch::Spawn(Spawn { program: "systemctl".to_string(), args: words(&["poweroff"]) }))
    );
}

#[test]
fn ipc_without_connection_is_refused_for_every_action() {
    for action in Action::all() {
        assert_eq!(action_task::<u32>(action, ActionMethod::Ipc, None), Err(AppError::NoConnection));
    }
}

#[test]
fn ipc_with_connection_calls_the_matching_remote_method() {
    for action in Action::all() {
        assert_eq!(
            action_task(action, ActionMethod::Ipc, Some("bus".to_string())),
            Ok(Dispatch::Call { connection: "bus".to_string(), call: remote_call(action) })
        );
    }
}

#[test]
fn remote_call_table() {
    assert_eq!(remote_call(Action::Lock), RemoteCall::Session { method: SessionMethod::Lock });
    assert_eq!(remote_call(Action::LogOut), RemoteCall::Session { method: SessionMethod::Terminate });
    assert_eq!(
        remote_call(Action::Hibernate),
        RemoteCall::Manager { method: ManagerMethod::Hibernate, interactive: false }
    );
    assert_eq!(
        remote_call(Action::Reboot),
        RemoteCall::Manager { method: ManagerMethod::Reboot, interactive: false }
    );
    assert_eq!(
        remote_call(Action::Shutdown),
        RemoteCall::Manager { method: ManagerMethod::PowerOff, interactive: false }
    );
}

#[test]
fn spawn_failure_is_surfaced() {
    assert_eq!(
        command_outcome(ProcessReport::SpawnFailed("No such file or directory".to_string())),
        Err(AppError::ProcessSpawn("No such file or directory".to_string()))
    );
}

#[test]
fn wait_failure_is_surfaced() {
    assert_eq!(
        command_outcome(ProcessReport::WaitFailed("interrupted".to_string())),
        Err(AppError::ProcessWait("interrupted".to_string()))
    );
}

#[test]
fn call_outcome_wraps_the_remote_failure() {
    assert_eq!(call_outcome(Ok(())), Ok(()));
    assert_eq!(
        call_outcome(Err("org.freedesktop.DBus.Error.AccessDenied".to_string())),
        Err(AppError::IpcCall("org.freedesktop.DBus.Error.AccessDenied".to_string()))
    );
}

#[test]
fn connect_outcome_wraps_the_bus_failure() {
    assert_eq!(connect_outcome(Ok(5u32)), Ok(5u32));
    assert_eq!(
        connect_outcome::<u32>(Err("no system bus".to_string())),
        Err(AppError::Connect("no system bus".to_string()))
    );
}

#[test]
fn error_messages() {
    assert_eq!(
        AppError::Connect("refused".to_string()).message(),
        "Failed to connect to session bus: refused"
    );
    assert_eq!(AppError::NoConnection.message(), "No dbus connection!");
    assert_eq!(
        AppError::IpcCall("timeout".to_string()).message(),
        "Failed to connect to session bus: timeout"
    );
    assert_eq!(
        AppError::EmptyCommandArgs("Log Out".to_string()).message(),
        "Empty cmd args list for action Log Out"
    );
    assert_eq!(AppError::ProcessSpawn("not found".to_string()).message(), "IO: not found");
    assert_eq!(AppError::ProcessWait("gone".to_string()).message(), "IO: gone");
}

#[test]
fn error_message_with_empty_cause() {
    assert_eq!(AppError::ProcessSpawn(String::new()).message(), "IO: ");
    assert_eq!(AppError::EmptyCommandArgs(String::new()).message(), "Empty cmd args list for action ");
}

#[test]
fn cloned_error_equals_its_source() {
    let errors = vec![
        AppError::Connect("a".to_string()),
        AppError::NoConnection,
        AppError::IpcCall("b".to_string()),
        AppError::EmptyCommandArgs("Lock".to_string()),
        AppError::ProcessSpawn("c".to_string()),
        AppError::ProcessWait("d".to_string()),
    ];
    for error in errors {
        assert_eq!(error.clone(), error);
    }
}
