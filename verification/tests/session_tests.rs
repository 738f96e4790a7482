use videohub_bridge::device::{DeviceInfo, Label, Lock, LockState, Message, NetworkInterface, Route};
use videohub_bridge::events::{PortType, VideohubEvent};
use videohub_bridge::session::{
    DEVICE_RECONNECT_DELAY_SECS, DeviceSession, RECEIVE_RETRY_DELAY_SECS,
};

fn info_message() -> Message {
    Message::DeviceInfo(DeviceInfo {
        model_name: Some("Smart Videohub".to_string()),
        video_inputs: Some(16),
        video_outputs: Some(8),
        unique_id: Some("a1b2c3".to_string()),
    })
}

fn routing_message() -> Message {
    Message::VideoOutputRouting(vec![
        Route { to_output: 0, from_input: 3 },
        Route { to_output: 1, from_input: 4 },
        Route { to_output: 2, from_input: 5 },
    ])
}

#[test]
fn routing_batch_emits_in_output_order() {
    let mut s = DeviceSession::new();
    let events = s.on_message(&routing_message());
    assert_eq!(events.len(), 3);
    assert_eq!(
        events[0],
        VideohubEvent::Route { output: 0, input: 3, input_label: None }
    );
    assert_eq!(
        events[1],
        VideohubEvent::Route { output: 1, input: 4, input_label: None }
    );
    assert_eq!(
        events[2],
        VideohubEvent::Route { output: 2, input: 5, input_label: None }
    );
}

#[test]
fn routing_batch_replayed_emits_only_changes() {
    let mut s = DeviceSession::new();
    let first = s.on_message(&routing_message());
    assert_eq!(first.len(), 3);
    let second = s.on_message(&routing_message());
    assert_eq!(second.len(), 0, "an identical routing table is fully suppressed");
    let third = s.on_message(&Message::VideoOutputRouting(vec![
        Route { to_output: 0, from_input: 3 },
        Route { to_output: 1, from_input: 9 },
        Route { to_output: 2, from_input: 5 },
    ]));
    assert_eq!(
        third,
        vec![VideohubEvent::Route { output: 1, input: 9, input_label: None }],
        "only the changed pair is re-announced"
    );
}

#[test]
fn route_event_carries_last_known_input_label() {
    let mut s = DeviceSession::new();
    s.on_message(&Message::InputLabels(vec![Label { id: 5, name: "Deck".to_string() }]));
    let events = s.on_message(&Message::VideoOutputRouting(vec![
        Route { to_output: 2, from_input: 5 },
    ]));
    assert_eq!(
        events,
        vec![VideohubEvent::Route { output: 2, input: 5, input_label: Some("Deck".to_string()) }]
    );
}

#[test]
fn label_batches_emit_per_novel_label() {
    let mut s = DeviceSession::new();
    let msg = Message::InputLabels(vec![
        Label { id: 0, name: "Cam A".to_string() },
        Label { id: 1, name: "Cam B".to_string() },
    ]);
    let events = s.on_message(&msg);
    assert_eq!(events.len(), 2);
    assert_eq!(
        events[0],
        VideohubEvent::Label { port_type: PortType::Input, port: 0, label: "Cam A".to_string() }
    );
    assert_eq!(
        events[1],
        VideohubEvent::Label { port_type: PortType::Input, port: 1, label: "Cam B".to_string() }
    );
    let replay = s.on_message(&msg);
    assert!(replay.is_empty());
    let events = s.on_message(&Message::OutputLabels(vec![
        Label { id: 0, name: "Monitor".to_string() },
    ]));
    assert_eq!(
        events,
        vec![VideohubEvent::Label {
            port_type: PortType::Output,
            port: 0,
            label: "Monitor".to_string(),
        }]
    );
}

#[test]
fn lock_batch_reduces_to_locked_or_not() {
    let mut s = DeviceSession::new();
    let events = s.on_message(&Message::VideoOutputLocks(vec![
        Lock { id: 0, state: LockState::Locked },
        Lock { id: 1, state: LockState::Owned },
        Lock { id: 2, state: LockState::Unlocked },
    ]));
    assert_eq!(
        events,
        vec![
            VideohubEvent::OutputLock { output: 0, locked: true },
            VideohubEvent::OutputLock { output: 1, locked: false },
            VideohubEvent::OutputLock { output: 2, locked: false },
        ],
        "only a lock held by another client counts as locked"
    );
}

#[test]
fn fallback_scan_diffs_take_mode_and_interfaces() {
    let mut s = DeviceSession::new();
    s.record_take_mode(0, true);
    let events = s.on_message(&Message::Ping);
    assert_eq!(events, vec![VideohubEvent::TakeMode { output: 0, enabled: true }]);
    let replay = s.on_message(&Message::Ping);
    assert!(replay.is_empty(), "an unchanged scan is suppressed");

    s.record_take_mode(0, false);
    let iface = NetworkInterface {
        id: 1,
        name: "eth0".to_string(),
        mac_address: None,
        current_addresses: Some("10.0.0.2/24".to_string()),
        current_gateway: None,
        dynamic_ip: Some(false),
    };
    s.record_network_interface(&iface);
    let events = s.on_message(&Message::Ack);
    assert_eq!(
        events,
        vec![
            VideohubEvent::TakeMode { output: 0, enabled: false },
            VideohubEvent::NetworkInterface { interface: iface },
        ],
        "take-mode changes come before interface changes"
    );
}

#[test]
fn end_of_dump_clears_reconnect_flag() {
    let mut s = DeviceSession::new();
    s.on_connected();
    assert_eq!(s.on_message(&info_message()).len(), 1);
    assert_eq!(
        s.on_message(&info_message()).len(),
        1,
        "while the flag is set even identical facts re-announce"
    );
    let none = s.on_message(&Message::EndPrelude);
    assert!(none.is_empty());
    assert!(s.on_message(&info_message()).is_empty(), "after the marker suppression resumes");
}

#[test]
fn disconnect_reconnect_scenario() {
    let mut s = DeviceSession::new();
    s.on_connected();
    assert_eq!(s.on_message(&info_message()).len(), 1);
    assert_eq!(s.on_message(&routing_message()).len(), 3);
    s.on_message(&Message::EndPrelude);
    assert!(s.on_message(&info_message()).is_empty());
    assert!(s.on_message(&routing_message()).is_empty());

    let ev = s.on_stream_closed();
    assert_eq!(
        ev,
        VideohubEvent::DeviceStatus {
            connected: false,
            model_name: Some("Smart Videohub".to_string()),
            video_inputs: Some(16),
            video_outputs: Some(8),
        },
        "the disconnection event carries the last-known identity"
    );
    assert_eq!(DEVICE_RECONNECT_DELAY_SECS, 5);
    assert_eq!(RECEIVE_RETRY_DELAY_SECS, 1);

    s.on_connected();
    assert_eq!(
        s.on_message(&info_message()).len(),
        1,
        "after reconnecting, unchanged device info is re-announced"
    );
    assert_eq!(
        s.on_message(&routing_message()).len(),
        3,
        "after reconnecting, the unchanged routing table is re-announced"
    );
}

#[test]
fn disconnect_before_any_info_reports_unknown_identity() {
    let mut s = DeviceSession::new();
    let ev = s.on_stream_closed();
    assert_eq!(
        ev,
        VideohubEvent::DeviceStatus {
            connected: false,
            model_name: None,
            video_inputs: None,
            video_outputs: None,
        }
    );
}

#[test]
fn backend_restore_forces_reannouncement_without_touching_link() {
    let mut s = DeviceSession::new();
    s.on_connected();
    s.on_message(&info_message());
    s.on_message(&Message::EndPrelude);
    assert!(s.on_message(&info_message()).is_empty());
    assert!(s.state.connected);

    s.on_backend_restored();
    assert!(s.state.connected, "the device link is left alone");
    assert_eq!(
        s.on_message(&info_message()).len(),
        1,
        "cached facts are re-announced after the backend recovers"
    );
}

#[test]
fn device_info_message_updates_aggregate() {
    let mut s = DeviceSession::new();
    s.on_message(&info_message());
    let info = s.state.device_info.as_ref().expect("device info recorded");
    assert_eq!(info.model_name, Some("Smart Videohub".to_string()));
    assert_eq!(info.video_outputs, Some(8));
}

#[test]
fn label_tables_replace_wholesale_with_later_duplicate_winning() {
    let mut s = DeviceSession::new();
    s.on_message(&Message::InputLabels(vec![
        Label { id: 0, name: "Old".to_string() },
        Label { id: 1, name: "Keep".to_string() },
    ]));
    s.on_message(&Message::InputLabels(vec![
        Label { id: 0, name: "First".to_string() },
        Label { id: 0, name: "Second".to_string() },
    ]));
    assert_eq!(s.state.input_labels.get(&0), Some(&"Second".to_string()));
    assert_eq!(s.state.input_labels.get(&1), None, "the table is replaced, not merged");
}
