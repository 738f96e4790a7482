//! Model of the device-facing vocabulary.
//!
//! The bridge consumes the device's push/pull status protocol as a stream of
//! typed messages. Wire framing and field parsing happen outside the library;
//! what arrives here are plain values: device information, routing pairs,
//! port labels, lock states, and network-interface descriptions.

use vstd::prelude::*;

verus! {

/// The view of an optional string: its character sequence, if present.
pub open spec fn opt_string_view(o: Option<String>) -> Option<Seq<char>> {
    match o {
        Option::Some(s) => Option::Some(s@),
        Option::None => Option::None,
    }
}

/// Compares two optional strings by exact character equality.
pub fn opt_string_eq(a: &Option<String>, b: &Option<String>) -> (r: bool)
    ensures
        r == (opt_string_view(*a) == opt_string_view(*b)),
{
    match (a, b) {
        (Option::Some(x), Option::Some(y)) => *x == *y,
        (Option::None, Option::None) => true,
        _ => false,
    }
}

/// Copies an optional string, preserving its value exactly.
pub fn opt_string_copy(o: &Option<String>) -> (r: Option<String>)
    ensures
        r == *o,
{
    match o {
        Option::Some(s) => Option::Some(s.clone()),
        Option::None => Option::None,
    }
}

/// Copies an optional number, preserving its value exactly.
pub fn opt_u32_copy(o: &Option<u32>) -> (r: Option<u32>)
    ensures
        r == *o,
{
    match o {
        Option::Some(v) => Option::Some(*v),
        Option::None => Option::None,
    }
}

/// Device identity and capacity as announced by the device itself.
#[derive(Debug, PartialEq)]
pub struct DeviceInfo {
    pub model_name: Option<String>,
    pub video_inputs: Option<u32>,
    pub video_outputs: Option<u32>,
    pub unique_id: Option<String>,
}

/// The mathematical shape of a [`DeviceInfo`]: strings become sequences.
pub struct DeviceInfoView {
    pub model_name: Option<Seq<char>>,
    pub video_inputs: Option<u32>,
    pub video_outputs: Option<u32>,
    pub unique_id: Option<Seq<char>>,
}

impl View for DeviceInfo {
    type V = DeviceInfoView;

    open spec fn view(&self) -> DeviceInfoView {
        DeviceInfoView {
            model_name: opt_string_view(self.model_name),
            video_inputs: self.video_inputs,
            video_outputs: self.video_outputs,
            unique_id: opt_string_view(self.unique_id),
        }
    }
}

impl DeviceInfo {
    /// Structural equality: every field must match exactly.
    pub fn eq_info(&self, other: &DeviceInfo) -> (r: bool)
        ensures
            r == (self@ == other@),
    {
        let r = opt_string_eq(&self.model_name, &other.model_name)
            && self.video_inputs == other.video_inputs
            && self.video_outputs == other.video_outputs
            && opt_string_eq(&self.unique_id, &other.unique_id);
        r
    }

    /// Copies the announcement, preserving its value exactly.
    pub fn duplicate(&self) -> (r: DeviceInfo)
        ensures
            r == *self,
    {
        DeviceInfo {
            model_name: opt_string_copy(&self.model_name),
            video_inputs: opt_u32_copy(&self.video_inputs),
            video_outputs: opt_u32_copy(&self.video_outputs),
            unique_id: opt_string_copy(&self.unique_id),
        }
    }
}

/// One routing assignment: the given output is fed from the given input.
/// Both indices are zero-based, as the device reports them.
#[derive(Clone, Copy, Debug, PartialEq, Eq, Structural)]
pub struct Route {
    pub to_output: u32,
    pub from_input: u32,
}

/// One port label: a stable zero-based port id and its display name.
#[derive(Debug, PartialEq)]
pub struct Label {
    pub id: u32,
    pub name: String,
}

impl Label {
    /// Copies the label, preserving its value exactly.
    pub fn duplicate(&self) -> (r: Label)
        ensures
            r == *self,
    {
        Label { id: self.id, name: self.name.clone() }
    }
}

/// Lock ownership of an output, as the device distinguishes it.
#[derive(Clone, Copy, Debug, PartialEq, Eq, Structural)]
pub enum LockState {
    /// Locked, and the lock is held by this client.
    Owned,
    /// Locked by some other client.
    Locked,
    /// Not locked.
    Unlocked,
}

/// One lock entry: an output id and its lock state.
#[derive(Clone, Copy, Debug, PartialEq, Eq, Structural)]
pub struct Lock {
    pub id: u32,
    pub state: LockState,
}

impl Lock {
    /// Whether this entry counts as locked for the bridge: only a lock held
    /// by another client does.
    pub open spec fn spec_is_locked(&self) -> bool {
        self.state is Locked
    }

    /// Executable form of [`Lock::spec_is_locked`].
    pub fn is_locked(&self) -> (r: bool)
        ensures
            r == self.spec_is_locked(),
    {
        match self.state {
            LockState::Locked => true,
            _ => false,
        }
    }
}

/// One network interface of the device.
#[derive(Debug, PartialEq)]
pub struct NetworkInterface {
    pub id: u32,
    pub name: String,
    pub mac_address: Option<String>,
    pub current_addresses: Option<String>,
    pub current_gateway: Option<String>,
    pub dynamic_ip: Option<bool>,
}

/// The mathematical shape of a [`NetworkInterface`].
pub struct NetworkInterfaceView {
    pub id: u32,
    pub name: Seq<char>,
    pub mac_address: Option<Seq<char>>,
    pub current_addresses: Option<Seq<char>>,
    pub current_gateway: Option<Seq<char>>,
    pub dynamic_ip: Option<bool>,
}

impl View for NetworkInterface {
    type V = NetworkInterfaceView;

    open spec fn view(&self) -> NetworkInterfaceView {
        NetworkInterfaceView {
            id: self.id,
            name: self.name@,
            mac_address: opt_string_view(self.mac_address),
            current_addresses: opt_string_view(self.current_addresses),
            current_gateway: opt_string_view(self.current_gateway),
            dynamic_ip: self.dynamic_ip,
        }
    }
}

impl NetworkInterface {
    /// Full structural equality: any field difference counts as a change.
    pub fn eq_interface(&self, other: &NetworkInterface) -> (r: bool)
        ensures
            r == (self@ == other@),
    {
        let r = self.id == other.id && self.name == other.name
            && opt_string_eq(&self.mac_address, &other.mac_address)
            && opt_string_eq(&self.current_addresses, &other.current_addresses)
            && opt_string_eq(&self.current_gateway, &other.current_gateway)
            && self.dynamic_ip == other.dynamic_ip;
        r
    }

    /// Copies the interface description, preserving its value exactly.
    pub fn duplicate(&self) -> (r: NetworkInterface)
        ensures
            r == *self,
    {
        NetworkInterface {
            id: self.id,
            name: self.name.clone(),
            mac_address: opt_string_copy(&self.mac_address),
            current_addresses: opt_string_copy(&self.current_addresses),
            current_gateway: opt_string_copy(&self.current_gateway),
            dynamic_ip: match self.dynamic_ip {
                Option::Some(b) => Option::Some(b),
                Option::None => Option::None,
            },
        }
    }
}

/// The message vocabulary the bridge interprets. Messages the bridge does not
/// interpret structurally arrive as [`Message::Other`]; they still trigger the
/// fallback scan over take mode and network interfaces.
#[derive(Debug, PartialEq)]
pub enum Message {
    /// Device identity and capacity.
    DeviceInfo(DeviceInfo),
    /// A batch of routing assignments.
    VideoOutputRouting(Vec<Route>),
    /// A batch of input-port labels.
    InputLabels(Vec<Label>),
    /// A batch of output-port labels.
    OutputLabels(Vec<Label>),
    /// A batch of output lock states.
    VideoOutputLocks(Vec<Lock>),
    /// End of the initial state dump after a connection.
    EndPrelude,
    /// Positive acknowledgement of a command.
    Ack,
    /// Negative acknowledgement of a command.
    Nak,
    /// Keep-alive.
    Ping,
    /// Any message the bridge does not interpret structurally.
    Other,
}

} // verus!
