use videohub_bridge::device::NetworkInterface;
use videohub_bridge::emitters::{
    DeviceStatusEmitter, InputChangedEmitter, LabelChangedEmitter, LockChangedEmitter,
    NetworkInterfaceEmitter, TakeModeOnThisOutputEmitter,
};
use videohub_bridge::events::{PortType, VideohubEvent};
use videohub_bridge::lifecycle::{EmitInstruction, OutputTargets};

fn connected_status(outputs: u32) -> VideohubEvent {
    VideohubEvent::DeviceStatus {
        connected: true,
        model_name: Some("Smart Videohub".to_string()),
        video_inputs: Some(16),
        video_outputs: Some(outputs),
    }
}

#[test]
fn target_creation_is_idempotent() {
    let mut reg = OutputTargets::new();
    let first = reg.handle_event(&connected_status(8));
    assert_eq!(first.len(), 9, "eight creations and one status pulse");
    for (i, ins) in first.iter().take(8).enumerate() {
        assert_eq!(
            *ins,
            EmitInstruction::CreateOutput { index: i as u32 },
            "creation runs in increasing output-index order"
        );
    }
    assert!(matches!(first[8], EmitInstruction::PulseDeviceStatus { .. }));
    assert!(reg.created);
    assert_eq!(reg.count, 8);

    let second = reg.handle_event(&connected_status(8));
    assert_eq!(second.len(), 1, "a repeated status event creates nothing");
    assert!(matches!(second[0], EmitInstruction::PulseDeviceStatus { .. }));
    assert_eq!(reg.count, 8, "eight sub-targets, not sixteen");
}

#[test]
fn creation_waits_for_connected_and_known_count() {
    let mut reg = OutputTargets::new();
    let plan = reg.handle_event(&VideohubEvent::DeviceStatus {
        connected: false,
        model_name: None,
        video_inputs: None,
        video_outputs: Some(4),
    });
    assert_eq!(plan.len(), 1, "a disconnected status only pulses");
    assert!(!reg.created);

    let plan = reg.handle_event(&VideohubEvent::DeviceStatus {
        connected: true,
        model_name: None,
        video_inputs: None,
        video_outputs: None,
    });
    assert_eq!(plan.len(), 1, "an unknown output count only pulses");
    assert!(!reg.created);
}

#[test]
fn status_pulse_carries_the_event_fields() {
    let mut reg = OutputTargets::new();
    let plan = reg.handle_event(&connected_status(2));
    assert_eq!(
        plan[2],
        EmitInstruction::PulseDeviceStatus {
            payload: DeviceStatusEmitter {
                connected: true,
                model_name: Some("Smart Videohub".to_string()),
                video_inputs: Some(16),
                video_outputs: Some(2),
            },
        }
    );
}

#[test]
fn route_event_reexposes_one_based_input_on_its_subtarget() {
    let mut reg = OutputTargets::new();
    reg.handle_event(&connected_status(8));
    let plan = reg.handle_event(&VideohubEvent::Route {
        output: 2,
        input: 4,
        input_label: Some("Deck".to_string()),
    });
    assert_eq!(
        plan,
        vec![EmitInstruction::PulseInputChanged {
            index: 2,
            payload: InputChangedEmitter { input: 5, input_label: Some("Deck".to_string()) },
        }],
        "zero-based input 4 is re-exposed as one-based 5 on sub-target index 2"
    );
}

#[test]
fn out_of_range_output_is_silently_ignored() {
    let mut reg = OutputTargets::new();
    reg.handle_event(&connected_status(3));
    let plan = reg.handle_event(&VideohubEvent::Route { output: 3, input: 0, input_label: None });
    assert!(plan.is_empty(), "an output with no bundle yields nothing");
    let plan = reg.handle_event(&VideohubEvent::OutputLock { output: 9, locked: true });
    assert!(plan.is_empty());
}

#[test]
fn events_before_creation_are_dropped() {
    let mut reg = OutputTargets::new();
    let plan = reg.handle_event(&VideohubEvent::Route { output: 0, input: 1, input_label: None });
    assert!(plan.is_empty(), "no bundles exist before creation");
}

#[test]
fn output_label_goes_to_its_subtarget() {
    let mut reg = OutputTargets::new();
    reg.handle_event(&connected_status(4));
    let plan = reg.handle_event(&VideohubEvent::Label {
        port_type: PortType::Output,
        port: 3,
        label: "Monitor".to_string(),
    });
    assert_eq!(
        plan,
        vec![EmitInstruction::PulseLabelChanged {
            index: 3,
            payload: LabelChangedEmitter {
                port_type: "output".to_string(),
                port: 3,
                label: "Monitor".to_string(),
            },
        }]
    );
}

#[test]
fn input_label_goes_to_the_first_subtarget_as_representative() {
    let mut reg = OutputTargets::new();
    reg.handle_event(&connected_status(4));
    let plan = reg.handle_event(&VideohubEvent::Label {
        port_type: PortType::Input,
        port: 7,
        label: "Cam".to_string(),
    });
    assert_eq!(
        plan,
        vec![EmitInstruction::PulseLabelChanged {
            index: 0,
            payload: LabelChangedEmitter {
                port_type: "input".to_string(),
                port: 7,
                label: "Cam".to_string(),
            },
        }]
    );

    let mut empty = OutputTargets::new();
    let plan = empty.handle_event(&VideohubEvent::Label {
        port_type: PortType::Input,
        port: 7,
        label: "Cam".to_string(),
    });
    assert!(plan.is_empty(), "with no sub-targets there is no representative");
}

#[test]
fn lock_and_take_mode_pulse_their_subtarget() {
    let mut reg = OutputTargets::new();
    reg.handle_event(&connected_status(4));
    let plan = reg.handle_event(&VideohubEvent::OutputLock { output: 1, locked: true });
    assert_eq!(
        plan,
        vec![EmitInstruction::PulseLockChanged {
            index: 1,
            payload: LockChangedEmitter { locked: true },
        }]
    );
    let plan = reg.handle_event(&VideohubEvent::TakeMode { output: 2, enabled: true });
    assert_eq!(
        plan,
        vec![EmitInstruction::PulseTakeMode {
            index: 2,
            payload: TakeModeOnThisOutputEmitter { enabled: true },
        }]
    );
}

#[test]
fn network_interface_pulses_the_device_target() {
    let mut reg = OutputTargets::new();
    let plan = reg.handle_event(&VideohubEvent::NetworkInterface {
        interface: NetworkInterface {
            id: 0,
            name: "eth0".to_string(),
            mac_address: Some("00:11:22:33:44:55".to_string()),
            current_addresses: None,
            current_gateway: None,
            dynamic_ip: Some(true),
        },
    });
    assert_eq!(
        plan,
        vec![EmitInstruction::PulseNetworkInterface {
            payload: NetworkInterfaceEmitter {
                interface_id: 0,
                name: "eth0".to_string(),
                mac_address: Some("00:11:22:33:44:55".to_string()),
                current_addresses: None,
                current_gateway: None,
                dynamic_ip: Some(true),
            },
        }],
        "interface events need no sub-target"
    );
}
