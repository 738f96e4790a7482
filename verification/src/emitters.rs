//! Emitter payloads: typed outbound events pulsed to the automation backend.
//!
//! Device-level payloads carry explicit port numbers; output-scoped payloads
//! omit the output, which is implicit in the sub-target whose emitter is
//! pulsed. Input numbers in [`InputChangedEmitter`] are one-based
//! presentation values, restored from the bridge's zero-based convention at
//! the moment the payload is built.

use vstd::prelude::*;

use crate::device::opt_string_view;
use crate::events::PortType;

verus! {

/// A route changed (device-level form).
#[derive(Debug, PartialEq)]
pub struct RouteChangedEmitter {
    /// Output port number.
    pub output: u32,
    /// Input port number.
    pub input: u32,
    /// Last known label of the output, if any.
    pub output_label: Option<String>,
    /// Last known label of the input, if any.
    pub input_label: Option<String>,
}

/// Device connectivity and identity.
#[derive(Debug, PartialEq)]
pub struct DeviceStatusEmitter {
    /// Whether the device link is up.
    pub connected: bool,
    /// Device model name, if known.
    pub model_name: Option<String>,
    /// Number of video inputs, if known.
    pub video_inputs: Option<u32>,
    /// Number of video outputs, if known.
    pub video_outputs: Option<u32>,
}

/// A port label changed.
#[derive(Debug, PartialEq)]
pub struct LabelChangedEmitter {
    /// Which kind of port: `"input"` or `"output"`.
    pub port_type: String,
    /// Port number.
    pub port: u32,
    /// The new label.
    pub label: String,
}

/// An output's lock state changed (device-level form).
#[derive(Debug, PartialEq)]
pub struct OutputLockChangedEmitter {
    /// Output port number.
    pub output: u32,
    /// Whether the output is locked.
    pub locked: bool,
    /// Last known label of the output, if any.
    pub output_label: Option<String>,
}

/// An output's take mode changed (device-level form).
#[derive(Debug, PartialEq)]
pub struct TakeModeChangedEmitter {
    /// Output port number.
    pub output: u32,
    /// Whether take mode is enabled.
    pub enabled: bool,
    /// Last known label of the output, if any.
    pub output_label: Option<String>,
}

/// A network interface of the device changed.
#[derive(Debug, PartialEq)]
pub struct NetworkInterfaceEmitter {
    /// Interface id.
    pub interface_id: u32,
    /// Interface name.
    pub name: String,
    /// MAC address, if known.
    pub mac_address: Option<String>,
    /// Current addresses, if known.
    pub current_addresses: Option<String>,
    /// Current gateway, if known.
    pub current_gateway: Option<String>,
    /// Whether the interface uses a dynamic address, if known.
    pub dynamic_ip: Option<bool>,
}

/// The input feeding this output changed (output-scoped form).
#[derive(Debug, PartialEq)]
pub struct InputChangedEmitter {
    /// Input port number (one-based).
    pub input: u32,
    /// Last known label of the input, if any.
    pub input_label: Option<String>,
}

/// This output's lock state changed (output-scoped form).
#[derive(Debug, PartialEq)]
pub struct LockChangedEmitter {
    /// Whether the output is locked.
    pub locked: bool,
}

/// This output's take mode changed (output-scoped form).
#[derive(Debug, PartialEq)]
pub struct TakeModeOnThisOutputEmitter {
    /// Whether take mode is enabled.
    pub enabled: bool,
}

/// The mathematical shape of a [`DeviceStatusEmitter`].
pub struct DeviceStatusEmitterView {
    pub connected: bool,
    pub model_name: Option<Seq<char>>,
    pub video_inputs: Option<u32>,
    pub video_outputs: Option<u32>,
}

impl View for DeviceStatusEmitter {
    type V = DeviceStatusEmitterView;

    open spec fn view(&self) -> DeviceStatusEmitterView {
        DeviceStatusEmitterView {
            connected: self.connected,
            model_name: opt_string_view(self.model_name),
            video_inputs: self.video_inputs,
            video_outputs: self.video_outputs,
        }
    }
}

/// The mathematical shape of a [`LabelChangedEmitter`].
pub struct LabelChangedEmitterView {
    pub port_type: Seq<char>,
    pub port: u32,
    pub label: Seq<char>,
}

impl View for LabelChangedEmitter {
    type V = LabelChangedEmitterView;

    open spec fn view(&self) -> LabelChangedEmitterView {
        LabelChangedEmitterView {
            port_type: self.port_type@,
            port: self.port,
            label: self.label@,
        }
    }
}

/// The mathematical shape of a [`NetworkInterfaceEmitter`].
pub struct NetworkInterfaceEmitterView {
    pub interface_id: u32,
    pub name: Seq<char>,
    pub mac_address: Option<Seq<char>>,
    pub current_addresses: Option<Seq<char>>,
    pub current_gateway: Option<Seq<char>>,
    pub dynamic_ip: Option<bool>,
}

impl View for NetworkInterfaceEmitter {
    type V = NetworkInterfaceEmitterView;

    open spec fn view(&self) -> NetworkInterfaceEmitterView {
        NetworkInterfaceEmitterView {
            interface_id: self.interface_id,
            name: self.name@,
            mac_address: opt_string_view(self.mac_address),
            current_addresses: opt_string_view(self.current_addresses),
            current_gateway: opt_string_view(self.current_gateway),
            dynamic_ip: self.dynamic_ip,
        }
    }
}

/// The mathematical shape of an [`InputChangedEmitter`].
pub struct InputChangedEmitterView {
    pub input: u32,
    pub input_label: Option<Seq<char>>,
}

impl View for InputChangedEmitter {
    type V = InputChangedEmitterView;

    open spec fn view(&self) -> InputChangedEmitterView {
        InputChangedEmitterView {
            input: self.input,
            input_label: opt_string_view(self.input_label),
        }
    }
}

/// The wire name of a port kind, as label payloads carry it.
pub open spec fn spec_port_type_name(pt: PortType) -> Seq<char> {
    match pt {
        PortType::Input => "input"@,
        PortType::Output => "output"@,
    }
}

/// Builds the wire name of a port kind.
pub fn port_type_name(pt: PortType) -> (s: String)
    ensures
        s@ == spec_port_type_name(pt),
{
    match pt {
        PortType::Input => String::from_str("input"),
        PortType::Output => String::from_str("output"),
    }
}

} // verus!
