use videohub_bridge::actions::{
    SetInputAction, SetInputLabelAction, SetLabelAction, SetLockAction, SetOutputLabelAction,
    SetOutputLockAction, SetRouteAction, SetTakeModeAction, SetTakeModeOnThisOutputAction,
};
use videohub_bridge::device::{Label, Message, Route};
use videohub_bridge::dispatch::{dispatch_command, status_request_message};
use videohub_bridge::events::VideohubCommand;
use videohub_bridge::monitor::ConnectionMonitor;
use videohub_bridge::ports::{to_one_based, to_zero_based};

#[test]
fn one_based_route_action_normalizes_to_zero_based() {
    let cmd = SetRouteAction { output: 3, input: 5 }.into_command();
    assert_eq!(cmd, VideohubCommand::Route { output: 2, input: 4 });
}

#[test]
fn device_level_actions_normalize_their_ports() {
    assert_eq!(
        SetInputLabelAction { input: 1, label: "Cam".to_string() }.into_command(),
        VideohubCommand::InputLabel { input: 0, label: "Cam".to_string() }
    );
    assert_eq!(
        SetOutputLabelAction { output: 4, label: "Mon".to_string() }.into_command(),
        VideohubCommand::OutputLabel { output: 3, label: "Mon".to_string() }
    );
    assert_eq!(
        SetOutputLockAction { output: 2, locked: true }.into_command(),
        VideohubCommand::OutputLock { output: 1, locked: true }
    );
    assert_eq!(
        SetTakeModeAction { output: 2, enabled: false }.into_command(),
        VideohubCommand::TakeMode { output: 1, enabled: false }
    );
}

#[test]
fn output_scoped_actions_keep_their_bound_index() {
    assert_eq!(
        SetInputAction { input: 5 }.into_command(2),
        VideohubCommand::SetInput { output: 2, input: 4 },
        "the bound output index is zero-based already; only the input normalizes"
    );
    assert_eq!(
        SetLabelAction { label: "Mon".to_string() }.into_command(7),
        VideohubCommand::OutputLabel { output: 7, label: "Mon".to_string() }
    );
    assert_eq!(
        SetLockAction { locked: true }.into_command(1),
        VideohubCommand::OutputLock { output: 1, locked: true }
    );
    assert_eq!(
        SetTakeModeOnThisOutputAction { enabled: true }.into_command(0),
        VideohubCommand::TakeMode { output: 0, enabled: true }
    );
}

#[test]
fn normalization_clamps_at_the_bottom_and_saturates_at_the_top() {
    assert_eq!(to_zero_based(0), 0, "zero is out of range for a one-based number");
    assert_eq!(to_zero_based(1), 0);
    assert_eq!(to_zero_based(u32::MAX), u32::MAX - 1);
    assert_eq!(to_one_based(0), 1);
    assert_eq!(to_one_based(u32::MAX), u32::MAX);
}

#[test]
fn route_commands_become_single_route_messages() {
    assert_eq!(
        dispatch_command(VideohubCommand::Route { output: 2, input: 4 }),
        Some(Message::VideoOutputRouting(vec![Route { to_output: 2, from_input: 4 }]))
    );
    assert_eq!(
        dispatch_command(VideohubCommand::SetInput { output: 0, input: 9 }),
        Some(Message::VideoOutputRouting(vec![Route { to_output: 0, from_input: 9 }]))
    );
}

#[test]
fn label_commands_become_single_label_messages() {
    assert_eq!(
        dispatch_command(VideohubCommand::InputLabel { input: 3, label: "Cam".to_string() }),
        Some(Message::InputLabels(vec![Label { id: 3, name: "Cam".to_string() }]))
    );
    assert_eq!(
        dispatch_command(VideohubCommand::OutputLabel { output: 5, label: "Mon".to_string() }),
        Some(Message::OutputLabels(vec![Label { id: 5, name: "Mon".to_string() }]))
    );
}

#[test]
fn lock_and_take_mode_commands_are_accepted_but_not_forwarded() {
    assert_eq!(dispatch_command(VideohubCommand::OutputLock { output: 0, locked: true }), None);
    assert_eq!(dispatch_command(VideohubCommand::TakeMode { output: 0, enabled: true }), None);
}

#[test]
fn status_request_is_a_ping() {
    assert_eq!(status_request_message(), Message::Ping);
}

#[test]
fn monitor_signals_only_the_recovery_edge() {
    let mut m = ConnectionMonitor::new();
    assert!(!m.observe(true), "starting connected, staying connected is no edge");
    assert!(!m.observe(false), "a loss is noted but signals nothing");
    assert!(m.observe(true), "the recovery edge fires the signal");
    assert!(!m.observe(true), "staying connected fires nothing further");
    assert!(!m.observe(false));
    assert!(m.observe(true), "every recovery fires again");
}
