//! The aggregate state of the device, owned by the device-session task.
//!
//! Every parsed message updates this state; nothing else mutates it. Label,
//! routing and lock messages replace their whole table, as the device resends
//! complete tables; take mode and network interfaces are keyed upserts fed by
//! the session from messages the bridge does not interpret structurally.

use vstd::prelude::*;

use std::collections::HashMap;

use crate::device::{DeviceInfo, DeviceInfoView, Label, Lock, Message, NetworkInterface,
    NetworkInterfaceView, Route};

verus! {

/// One output's take-mode setting.
#[derive(Clone, Copy, Debug, PartialEq, Eq, Structural)]
pub struct TakeModeEntry {
    pub output: u32,
    pub enabled: bool,
}

/// The mathematical state of the device aggregate.
#[verifier::ext_equal]
pub struct StateModel {
    pub device_info: Option<DeviceInfoView>,
    pub input_labels: Map<u32, Seq<char>>,
    pub output_labels: Map<u32, Seq<char>>,
    pub video_output_routing: Map<u32, u32>,
    pub output_locks: Map<u32, bool>,
    pub take_mode: Seq<TakeModeEntry>,
    pub network_interfaces: Seq<NetworkInterfaceView>,
    pub connected: bool,
}

impl StateModel {
    /// The state at session start.
    pub open spec fn initial() -> StateModel {
        StateModel {
            device_info: Option::None,
            input_labels: Map::empty(),
            output_labels: Map::empty(),
            video_output_routing: Map::empty(),
            output_locks: Map::empty(),
            take_mode: Seq::empty(),
            network_interfaces: Seq::empty(),
            connected: false,
        }
    }

    /// Well-formedness: the keyed sequences hold each key at most once, so a
    /// key identifies one entry.
    pub open spec fn wf(self) -> bool {
        &&& (forall|i: int, j: int|
            0 <= i < j < self.take_mode.len() ==> #[trigger] self.take_mode[i].output
                != #[trigger] self.take_mode[j].output)
        &&& (forall|i: int, j: int|
            0 <= i < j < self.network_interfaces.len()
                ==> #[trigger] self.network_interfaces[i].id
                != #[trigger] self.network_interfaces[j].id)
    }
}

/// The map a batch of labels denotes: entries in order, a later duplicate
/// overriding an earlier one.
pub open spec fn label_map(items: Seq<Label>) -> Map<u32, Seq<char>>
    decreases items.len(),
{
    if items.len() == 0 {
        Map::empty()
    } else {
        label_map(items.drop_last()).insert(items.last().id, items.last().name@)
    }
}

/// The map a batch of routing pairs denotes.
pub open spec fn route_map(items: Seq<Route>) -> Map<u32, u32>
    decreases items.len(),
{
    if items.len() == 0 {
        Map::empty()
    } else {
        route_map(items.drop_last()).insert(items.last().to_output, items.last().from_input)
    }
}

/// The map a batch of lock entries denotes, reduced to locked-or-not.
pub open spec fn lock_map(items: Seq<Lock>) -> Map<u32, bool>
    decreases items.len(),
{
    if items.len() == 0 {
        Map::empty()
    } else {
        lock_map(items.drop_last()).insert(items.last().id, items.last().spec_is_locked())
    }
}

/// The state after one parsed message.
pub open spec fn state_after(s: StateModel, msg: Message) -> StateModel {
    match msg {
        Message::DeviceInfo(info) => StateModel { device_info: Option::Some(info@), ..s },
        Message::InputLabels(items) => StateModel { input_labels: label_map(items@), ..s },
        Message::OutputLabels(items) => StateModel { output_labels: label_map(items@), ..s },
        Message::VideoOutputRouting(items) => (StateModel {
            video_output_routing: route_map(items@),
            ..s
        }),
        Message::VideoOutputLocks(items) => StateModel { output_locks: lock_map(items@), ..s },
        _ => s,
    }
}

/// The device aggregate: identity, tables and connectivity.
pub struct VideohubState {
    pub device_info: Option<DeviceInfo>,
    pub input_labels: HashMap<u32, String>,
    pub output_labels: HashMap<u32, String>,
    pub video_output_routing: HashMap<u32, u32>,
    pub output_locks: HashMap<u32, bool>,
    pub take_mode: Vec<TakeModeEntry>,
    pub network_interfaces: Vec<NetworkInterface>,
    pub connected: bool,
}

impl View for VideohubState {
    type V = StateModel;

    open spec fn view(&self) -> StateModel {
        StateModel {
            device_info: match self.device_info {
                Option::Some(i) => Option::Some(i@),
                Option::None => Option::None,
            },
            input_labels: self.input_labels@.map_values(|s: String| s@),
            output_labels: self.output_labels@.map_values(|s: String| s@),
            video_output_routing: self.video_output_routing@,
            output_locks: self.output_locks@,
            take_mode: self.take_mode@,
            network_interfaces: self.network_interfaces@.map_values(
                |n: NetworkInterface| n@,
            ),
            connected: self.connected,
        }
    }
}

impl VideohubState {
    /// A fresh, disconnected state with empty tables.
    pub fn new() -> (s: VideohubState)
        ensures
            s@ == StateModel::initial(),
            s@.wf(),
    {
        let s = VideohubState {
            device_info: Option::None,
            input_labels: HashMap::new(),
            output_labels: HashMap::new(),
            video_output_routing: HashMap::new(),
            output_locks: HashMap::new(),
            take_mode: Vec::new(),
            network_interfaces: Vec::new(),
            connected: false,
        };
        proof {
            assert(s@ =~= StateModel::initial());
        }
        s
    }

    /// Marks the device link up or down. The tables survive a link loss, so
    /// a disconnection event can still report the last-known identity.
    pub fn set_connected(&mut self, connected: bool)
        ensures
            final(self)@ == (StateModel { connected, ..old(self)@ }),
            old(self)@.wf() ==> final(self)@.wf(),
    {
        self.connected = connected;
        proof {
            assert(self@ =~= (StateModel { connected, ..old(self)@ }));
        }
    }

    /// Applies one parsed message to the aggregate.
    pub fn apply_message(&mut self, msg: &Message)
        ensures
            final(self)@ == state_after(old(self)@, *msg),
            old(self)@.wf() ==> final(self)@.wf(),
    {
        match msg {
            Message::DeviceInfo(info) => {
                self.device_info = Option::Some(info.duplicate());
                proof {
                    assert(self@ =~= state_after(old(self)@, *msg));
                }
            },
            Message::InputLabels(items) => {
                self.input_labels.clear();
                let n = items.len();
                for i in 0..n
                    invariant
                        n == items@.len(),
                        self.input_labels@.map_values(|s: String| s@) =~= label_map(
                            items@.take(i as int)),
                        self.output_labels == old(self).output_labels,
                        self.device_info == old(self).device_info,
                        self.video_output_routing == old(self).video_output_routing,
                        self.output_locks == old(self).output_locks,
                        self.take_mode == old(self).take_mode,
                        self.network_interfaces == old(self).network_interfaces,
                        self.connected == old(self).connected,
                {
                    let item = &items[i];
                    self.input_labels.insert(item.id, item.name.clone());
                    proof {
                        assert(items@.take(i + 1).drop_last() =~= items@.take(i as int));
                        assert(self.input_labels@.map_values(|s: String| s@) =~= label_map(
                            items@.take(i + 1)));
                    }
                }
                proof {
                    assert(items@.take(n as int) =~= items@);
                    assert(self@ =~= state_after(old(self)@, *msg));
                }
            },
            Message::OutputLabels(items) => {
                self.output_labels.clear();
                let n = items.len();
                for i in 0..n
                    invariant
                        n == items@.len(),
                        self.output_labels@.map_values(|s: String| s@) =~= label_map(
                            items@.take(i as int)),
                        self.input_labels == old(self).input_labels,
                        self.device_info == old(self).device_info,
                        self.video_output_routing == old(self).video_output_routing,
                        self.output_locks == old(self).output_locks,
                        self.take_mode == old(self).take_mode,
                        self.network_interfaces == old(self).network_interfaces,
                        self.connected == old(self).connected,
                {
                    let item = &items[i];
                    self.output_labels.insert(item.id, item.name.clone());
                    proof {
                        assert(items@.take(i + 1).drop_last() =~= items@.take(i as int));
                        assert(self.output_labels@.map_values(|s: String| s@) =~= label_map(
                            items@.take(i + 1)));
                    }
                }
                proof {
                    assert(items@.take(n as int) =~= items@);
                    assert(self@ =~= state_after(old(self)@, *msg));
                }
            },
            Message::VideoOutputRouting(items) => {
                self.video_output_routing.clear();
                let n = items.len();
                for i in 0..n
                    invariant
                        n == items@.len(),
                        self.video_output_routing@ =~= route_map(items@.take(i as int)),
                        self.input_labels == old(self).input_labels,
                        self.output_labels == old(self).output_labels,
                        self.device_info == old(self).device_info,
                        self.output_locks == old(self).output_locks,
                        self.take_mode == old(self).take_mode,
                        self.network_interfaces == old(self).network_interfaces,
                        self.connected == old(self).connected,
                {
                    let item = items[i];
                    self.video_output_routing.insert(item.to_output, item.from_input);
                    proof {
                        assert(items@.take(i + 1).drop_last() =~= items@.take(i as int));
                    }
                }
                proof {
                    assert(items@.take(n as int) =~= items@);
                    assert(self@ =~= state_after(old(self)@, *msg));
                }
            },
            Message::VideoOutputLocks(items) => {
                self.output_locks.clear();
                let n = items.len();
                for i in 0..n
                    invariant
                        n == items@.len(),
                        self.output_locks@ =~= lock_map(items@.take(i as int)),
                        self.input_labels == old(self).input_labels,
                        self.output_labels == old(self).output_labels,
                        self.device_info == old(self).device_info,
                        self.video_output_routing == old(self).video_output_routing,
                        self.take_mode == old(self).take_mode,
                        self.network_interfaces == old(self).network_interfaces,
                        self.connected == old(self).connected,
                {
                    let item = items[i];
                    self.output_locks.insert(item.id, item.is_locked());
                    proof {
                        assert(items@.take(i + 1).drop_last() =~= items@.take(i as int));
                    }
                }
                proof {
                    assert(items@.take(n as int) =~= items@);
                    assert(self@ =~= state_after(old(self)@, *msg));
                }
            },
            _ => {
                proof {
                    assert(self@ =~= state_after(old(self)@, *msg));
                }
            },
        }
    }

    /// Records one output's take mode: replaces the entry with that output
    /// id, or appends a new entry when none exists.
    pub fn upsert_take_mode(&mut self, output: u32, enabled: bool)
        requires
            old(self)@.wf(),
        ensures
            final(self)@.wf(),
            ({
                let s0 = old(self)@.take_mode;
                let e = TakeModeEntry { output, enabled };
                if exists|i: int| 0 <= i < s0.len() && (#[trigger] s0[i]).output == output {
                    exists|i: int|
                        0 <= i < s0.len() && (#[trigger] s0[i]).output == output
                            && final(self)@.take_mode == s0.update(i, e)
                } else {
                    final(self)@.take_mode == s0.push(e)
                }
            }),
            final(self)@ == (StateModel { take_mode: final(self)@.take_mode, ..old(self)@ }),
    {
        let n = self.take_mode.len();
        for i in 0..n
            invariant
                n == self.take_mode@.len(),
                forall|j: int| 0 <= j < i ==> (#[trigger] self.take_mode@[j]).output != output,
                self == old(self),
                old(self)@.wf(),
        {
            if self.take_mode[i].output == output {
                let e = TakeModeEntry { output, enabled };
                self.take_mode.set(i, e);
                proof {
                    let s0 = old(self)@.take_mode;
                    assert(self@ =~= (StateModel {
                        take_mode: s0.update(i as int, e),
                        ..old(self)@
                    }));
                    assert(0 <= i < s0.len() && s0[i as int].output == output
                        && self@.take_mode == s0.update(i as int, e));
                    assert forall|x: int, y: int|
                        0 <= x < y < self@.take_mode.len() implies (
                    #[trigger] self@.take_mode[x]).output != (#[trigger] self@.take_mode[y]).output by {
                        assert(self@.take_mode[x].output == s0[x].output);
                        assert(self@.take_mode[y].output == s0[y].output);
                    }
                }
                return ;
            }
        }
        let e = TakeModeEntry { output, enabled };
        self.take_mode.push(e);
        proof {
            assert(self@ =~= (StateModel {
                take_mode: old(self)@.take_mode.push(e),
                ..old(self)@
            }));
        }
    }

    /// Records one network interface: replaces the entry with that interface
    /// id, or appends a new entry when none exists.
    pub fn upsert_network_interface(&mut self, iface: &NetworkInterface)
        requires
            old(self)@.wf(),
        ensures
            final(self)@.wf(),
            ({
                let s0 = old(self)@.network_interfaces;
                if exists|i: int| 0 <= i < s0.len() && (#[trigger] s0[i]).id == iface@.id {
                    exists|i: int|
                        0 <= i < s0.len() && (#[trigger] s0[i]).id == iface@.id
                            && final(self)@.network_interfaces == s0.update(i, iface@)
                } else {
                    final(self)@.network_interfaces == s0.push(iface@)
                }
            }),
            final(self)@ == (StateModel {
                network_interfaces: final(self)@.network_interfaces,
                ..old(self)@
            }),
    {
        let n = self.network_interfaces.len();
        for i in 0..n
            invariant
                n == self.network_interfaces@.len(),
                forall|j: int|
                    0 <= j < i ==> (#[trigger] self.network_interfaces@[j]).id != iface.id,
                self == old(self),
                old(self)@.wf(),
        {
            if self.network_interfaces[i].id == iface.id {
                self.network_interfaces.set(i, iface.duplicate());
                proof {
                    let s0 = old(self)@.network_interfaces;
                    assert(self@.network_interfaces =~= s0.update(i as int, iface@));
                    assert(self@ =~= (StateModel {
                        network_interfaces: s0.update(i as int, iface@),
                        ..old(self)@
                    }));
                    assert(0 <= i < s0.len() && s0[i as int].id == iface@.id
                        && self@.network_interfaces == s0.update(i as int, iface@));
                    assert forall|x: int, y: int|
                        0 <= x < y < self@.network_interfaces.len() implies (
                    #[trigger] self@.network_interfaces[x]).id != (
                    #[trigger] self@.network_interfaces[y]).id by {
                        assert(self@.network_interfaces[x].id == s0[x].id);
                        assert(self@.network_interfaces[y].id == s0[y].id);
                    }
                }
                return ;
            }
        }
        self.network_interfaces.push(iface.duplicate());
        proof {
            assert(self@.network_interfaces =~= old(self)@.network_interfaces.push(iface@));
            assert(self@ =~= (StateModel {
                network_interfaces: old(self)@.network_interfaces.push(iface@),
                ..old(self)@
            }));
        }
    }
}

} // verus!
