use videohub_bridge::device::{DeviceInfo, NetworkInterface};
use videohub_bridge::tracker::StateTracker;

fn sample_info() -> DeviceInfo {
    DeviceInfo {
        model_name: Some("Smart Videohub".to_string()),
        video_inputs: Some(16),
        video_outputs: Some(8),
        unique_id: Some("a1b2c3".to_string()),
    }
}

#[test]
fn route_pair_sent_twice_emits_once() {
    let mut t = StateTracker::new();
    assert!(t.note_route(0, 5), "a pair never seen is novel");
    assert!(!t.note_route(0, 5), "the identical pair replayed is suppressed");
    assert!(!t.note_route(0, 5), "and stays suppressed on further replays");
}

#[test]
fn changed_route_emits_again() {
    let mut t = StateTracker::new();
    assert!(t.note_route(3, 1));
    assert!(t.note_route(3, 2), "a different input for the same output is novel");
    assert!(!t.note_route(3, 2));
}

#[test]
fn reconnect_flag_forces_reannouncement() {
    let mut t = StateTracker::new();
    assert!(t.note_route(2, 9));
    assert!(!t.note_route(2, 9));
    t.set_reconnect_flag();
    assert!(t.note_route(2, 9), "with the flag set the cached value is novel again");
    assert!(t.note_route(2, 9), "and stays novel until the flag is cleared");
    t.clear_reconnect_flag();
    assert!(!t.note_route(2, 9), "clearing the flag restores suppression");
}

#[test]
fn labels_compare_by_exact_characters() {
    let mut t = StateTracker::new();
    assert!(t.note_input_label(0, &"Camera".to_string()));
    assert!(!t.note_input_label(0, &"Camera".to_string()));
    assert!(
        t.note_input_label(0, &"camera".to_string()),
        "a label that changes case is a change"
    );
}

#[test]
fn output_labels_are_cached_separately_from_input_labels() {
    let mut t = StateTracker::new();
    assert!(t.note_input_label(1, &"Feed".to_string()));
    assert!(t.note_output_label(1, &"Feed".to_string()));
    assert!(!t.note_output_label(1, &"Feed".to_string()));
}

#[test]
fn device_info_diffs_by_full_structure() {
    let mut t = StateTracker::new();
    assert!(t.note_device_info(&sample_info()));
    assert!(!t.note_device_info(&sample_info()));
    let mut changed = sample_info();
    changed.video_outputs = Some(12);
    assert!(t.note_device_info(&changed), "any field difference is novel");
}

#[test]
fn lock_and_take_mode_compare_by_identity() {
    let mut t = StateTracker::new();
    assert!(t.note_output_lock(4, true));
    assert!(!t.note_output_lock(4, true));
    assert!(t.note_output_lock(4, false));
    assert!(t.note_take_mode(4, true));
    assert!(!t.note_take_mode(4, true));
    assert!(t.note_take_mode(4, false));
}

#[test]
fn network_interfaces_diff_by_any_field() {
    let mut t = StateTracker::new();
    let iface = NetworkInterface {
        id: 0,
        name: "eth0".to_string(),
        mac_address: Some("00:11:22:33:44:55".to_string()),
        current_addresses: Some("10.0.0.2/24".to_string()),
        current_gateway: Some("10.0.0.1".to_string()),
        dynamic_ip: Some(true),
    };
    assert!(t.note_network_interface(&iface));
    assert!(!t.note_network_interface(&iface));
    let mut changed = NetworkInterface {
        id: 0,
        name: "eth0".to_string(),
        mac_address: Some("00:11:22:33:44:55".to_string()),
        current_addresses: Some("10.0.0.3/24".to_string()),
        current_gateway: Some("10.0.0.1".to_string()),
        dynamic_ip: Some(true),
    };
    assert!(t.note_network_interface(&changed));
    changed.dynamic_ip = None;
    assert!(t.note_network_interface(&changed));
}

#[test]
fn input_label_lookup_returns_cached_value() {
    let mut t = StateTracker::new();
    assert_eq!(t.input_label_of(7), None);
    t.note_input_label(7, &"Deck".to_string());
    assert_eq!(t.input_label_of(7), Some("Deck".to_string()));
}
