//! Commands flowing into the device task and events flowing out of it.
//!
//! Commands are normalized (zero-based) requests produced by backend action
//! handlers; a single consuming task serializes them. Events describe device
//! facts the diffing engine found novel; a single emission task consumes them
//! in order.

use vstd::prelude::*;

use crate::device::{NetworkInterface, NetworkInterfaceView, opt_string_view};

verus! {

/// Which kind of port a label belongs to.
#[derive(Clone, Copy, Debug, PartialEq, Eq, Structural)]
pub enum PortType {
    Input,
    Output,
}

/// A normalized request for the device task. All indices are zero-based.
#[derive(Debug, PartialEq)]
pub enum VideohubCommand {
    /// Feed `output` from `input`.
    Route { output: u32, input: u32 },
    /// Feed `output` from `input`; issued by an output-scoped handler whose
    /// output index is implicit in the sub-target it was registered on.
    SetInput { output: u32, input: u32 },
    /// Rename an input port.
    InputLabel { input: u32, label: String },
    /// Rename an output port.
    OutputLabel { output: u32, label: String },
    /// Request a lock change; accepted but not forwarded to the device,
    /// which treats lock state as read-only telemetry.
    OutputLock { output: u32, locked: bool },
    /// Request a take-mode change; accepted but not forwarded to the device.
    TakeMode { output: u32, enabled: bool },
}

/// A device fact found novel by the diffing engine. All indices are
/// zero-based.
#[derive(Debug, PartialEq)]
pub enum VideohubEvent {
    /// The routing of `output` changed to `input`; the input's last known
    /// label rides along when the tracker has one.
    Route { output: u32, input: u32, input_label: Option<String> },
    /// Device connectivity or identity changed.
    DeviceStatus {
        connected: bool,
        model_name: Option<String>,
        video_inputs: Option<u32>,
        video_outputs: Option<u32>,
    },
    /// A port label changed.
    Label { port_type: PortType, port: u32, label: String },
    /// An output's lock state changed.
    OutputLock { output: u32, locked: bool },
    /// An output's take mode changed.
    TakeMode { output: u32, enabled: bool },
    /// A network interface changed in any field.
    NetworkInterface { interface: NetworkInterface },
}

/// The mathematical shape of a [`VideohubEvent`].
pub enum EventView {
    Route { output: u32, input: u32, input_label: Option<Seq<char>> },
    DeviceStatus {
        connected: bool,
        model_name: Option<Seq<char>>,
        video_inputs: Option<u32>,
        video_outputs: Option<u32>,
    },
    Label { port_type: PortType, port: u32, label: Seq<char> },
    OutputLock { output: u32, locked: bool },
    TakeMode { output: u32, enabled: bool },
    NetworkInterface { interface: NetworkInterfaceView },
}

impl View for VideohubEvent {
    type V = EventView;

    open spec fn view(&self) -> EventView {
        match self {
            VideohubEvent::Route { output, input, input_label } => (EventView::Route {
                output: *output,
                input: *input,
                input_label: opt_string_view(*input_label),
            }),
            VideohubEvent::DeviceStatus {
                connected,
                model_name,
                video_inputs,
                video_outputs,
            } => (EventView::DeviceStatus {
                connected: *connected,
                model_name: opt_string_view(*model_name),
                video_inputs: *video_inputs,
                video_outputs: *video_outputs,
            }),
            VideohubEvent::Label { port_type, port, label } => (EventView::Label {
                port_type: *port_type,
                port: *port,
                label: label@,
            }),
            VideohubEvent::OutputLock { output, locked } => (EventView::OutputLock {
                output: *output,
                locked: *locked,
            }),
            VideohubEvent::TakeMode { output, enabled } => (EventView::TakeMode {
                output: *output,
                enabled: *enabled,
            }),
            VideohubEvent::NetworkInterface { interface } => (EventView::NetworkInterface {
                interface: interface@,
            }),
        }
    }
}

/// The views of a sequence of events, in order.
pub open spec fn events_view(s: Seq<VideohubEvent>) -> Seq<EventView> {
    s.map_values(|e: VideohubEvent| e@)
}

} // verus!
